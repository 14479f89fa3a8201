//! ICE transport connection state and its canonical string form.

use vstd::prelude::*;
use crate::strutil::str_eq_str;

verus! {

/// ICETransportState represents the current state of the ICE transport.
#[derive(Debug, Copy, Clone, PartialEq, Eq, Structural)]
pub enum ICETransportState {
    Unspecified,
    /// The transport is gathering candidates or waiting for remote
    /// candidates.
    New,
    /// The transport is checking candidate pairs but has not found a
    /// working one yet.
    Checking,
    /// A working candidate pair has been found.
    Connected,
    /// Checking is finished and a working candidate pair is in use.
    Completed,
    /// A working pair was lost; the transport is trying to recover.
    Disconnected,
    /// No working candidate pair can be found.
    Failed,
    /// The transport has shut down.
    Closed,
}

impl Default for ICETransportState {
    fn default() -> (r: Self)
        ensures
            r == ICETransportState::Unspecified,
    {
        ICETransportState::Unspecified
    }
}

impl ICETransportState {
    /// Canonical rendering of each variant; `Unspecified` renders as the
    /// process-wide sentinel token.
    pub open spec fn spec_to_str(self) -> Seq<char> {
        match self {
            ICETransportState::New => "new"@,
            ICETransportState::Checking => "checking"@,
            ICETransportState::Connected => "connected"@,
            ICETransportState::Completed => "completed"@,
            ICETransportState::Disconnected => "disconnected"@,
            ICETransportState::Failed => "failed"@,
            ICETransportState::Closed => "closed"@,
            ICETransportState::Unspecified => "Unspecified"@,
        }
    }

    /// The variant whose canonical token is `s` exactly; any other string
    /// maps to `Unspecified`.
    pub open spec fn spec_from_str(s: Seq<char>) -> ICETransportState {
        if s == "new"@ {
            ICETransportState::New
        } else if s == "checking"@ {
            ICETransportState::Checking
        } else if s == "connected"@ {
            ICETransportState::Connected
        } else if s == "completed"@ {
            ICETransportState::Completed
        } else if s == "disconnected"@ {
            ICETransportState::Disconnected
        } else if s == "failed"@ {
            ICETransportState::Failed
        } else if s == "closed"@ {
            ICETransportState::Closed
        } else {
            ICETransportState::Unspecified
        }
    }

    /// Parses the canonical lowercase token; any other input yields
    /// `Unspecified`.
    pub fn from(raw: &str) -> (r: ICETransportState)
        ensures
            r == ICETransportState::spec_from_str(raw@),
    {
        if str_eq_str(raw, "new") {
            ICETransportState::New
        } else if str_eq_str(raw, "checking") {
            ICETransportState::Checking
        } else if str_eq_str(raw, "connected") {
            ICETransportState::Connected
        } else if str_eq_str(raw, "completed") {
            ICETransportState::Completed
        } else if str_eq_str(raw, "disconnected") {
            ICETransportState::Disconnected
        } else if str_eq_str(raw, "failed") {
            ICETransportState::Failed
        } else if str_eq_str(raw, "closed") {
            ICETransportState::Closed
        } else {
            ICETransportState::Unspecified
        }
    }

    /// Renders the canonical token for this state.
    pub fn to_string(&self) -> (r: String)
        ensures
            r@ == self.spec_to_str(),
    {
        match *self {
            ICETransportState::New => "new".to_owned(),
            ICETransportState::Checking => "checking".to_owned(),
            ICETransportState::Connected => "connected".to_owned(),
            ICETransportState::Completed => "completed".to_owned(),
            ICETransportState::Disconnected => "disconnected".to_owned(),
            ICETransportState::Failed => "failed".to_owned(),
            ICETransportState::Closed => "closed".to_owned(),
            ICETransportState::Unspecified => crate::UNSPECIFIED_STR.to_owned(),
        }
    }
}

/// Parsing the canonical rendering of any variant gives the variant back.
pub proof fn lemma_ice_transport_state_string_round_trip(v: ICETransportState)
    ensures
        ICETransportState::spec_from_str(v.spec_to_str()) == v,
{
    reveal_strlit("new");
    reveal_strlit("checking");
    reveal_strlit("connected");
    reveal_strlit("completed");
    reveal_strlit("disconnected");
    reveal_strlit("failed");
    reveal_strlit("closed");
    reveal_strlit("Unspecified");
    assert("new"@.len() == 3);
    assert("checking"@.len() == 8);
    assert("connected"@.len() == 9);
    assert("completed"@.len() == 9);
    assert("disconnected"@.len() == 12);
    assert("failed"@.len() == 6);
    assert("closed"@.len() == 6);
    assert("Unspecified"@.len() == 11);
    assert("connected"@[2] == 'n' && "completed"@[2] == 'm');
    assert("failed"@[0] == 'f' && "closed"@[0] == 'c');
}

/// Any token outside the canonical set parses to `Unspecified`.
pub proof fn lemma_ice_transport_state_unknown_token(s: Seq<char>)
    requires
        s != "new"@,
        s != "checking"@,
        s != "connected"@,
        s != "completed"@,
        s != "disconnected"@,
        s != "failed"@,
        s != "closed"@,
    ensures
        ICETransportState::spec_from_str(s) == ICETransportState::Unspecified,
{
}

} // verus!
