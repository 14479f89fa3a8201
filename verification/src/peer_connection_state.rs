//! Aggregate peer-connection state and its canonical string and numeric
//! forms.

use vstd::prelude::*;
use crate::strutil::str_eq_str;

verus! {

/// PeerConnectionState indicates the state of the PeerConnection.
#[derive(Debug, Copy, Clone, PartialEq, Eq, Structural)]
pub enum PeerConnectionState {
    Unspecified,
    /// Any of the ICETransports or DTLSTransports are in the "new" state
    /// and none of the transports are in the "connecting", "checking",
    /// "failed" or "disconnected" state, or all transports are in the
    /// "closed" state, or there are no transports.
    New,
    /// Any of the ICETransports or DTLSTransports are in the "connecting"
    /// or "checking" state and none of them is in the "failed" state.
    Connecting,
    /// All ICETransports and DTLSTransports are in the "connected",
    /// "completed" or "closed" state and at least one of them is in the
    /// "connected" or "completed" state.
    Connected,
    /// Any of the ICETransports or DTLSTransports are in the
    /// "disconnected" state and none of them are in the "failed",
    /// "connecting" or "checking" state.
    Disconnected,
    /// Any of the ICETransports or DTLSTransports are in a "failed" state.
    Failed,
    /// The peer connection is closed.
    Closed,
}

impl Default for PeerConnectionState {
    fn default() -> (r: Self)
        ensures
            r == PeerConnectionState::Unspecified,
    {
        PeerConnectionState::Unspecified
    }
}

impl PeerConnectionState {
    /// Canonical rendering of each variant; `Unspecified` renders as the
    /// process-wide sentinel token.
    pub open spec fn spec_to_str(self) -> Seq<char> {
        match self {
            PeerConnectionState::New => "new"@,
            PeerConnectionState::Connecting => "connecting"@,
            PeerConnectionState::Connected => "connected"@,
            PeerConnectionState::Disconnected => "disconnected"@,
            PeerConnectionState::Failed => "failed"@,
            PeerConnectionState::Closed => "closed"@,
            PeerConnectionState::Unspecified => "Unspecified"@,
        }
    }

    /// The variant whose canonical token is `s` exactly; any other string
    /// maps to `Unspecified`.
    pub open spec fn spec_from_str(s: Seq<char>) -> PeerConnectionState {
        if s == "new"@ {
            PeerConnectionState::New
        } else if s == "connecting"@ {
            PeerConnectionState::Connecting
        } else if s == "connected"@ {
            PeerConnectionState::Connected
        } else if s == "disconnected"@ {
            PeerConnectionState::Disconnected
        } else if s == "failed"@ {
            PeerConnectionState::Failed
        } else if s == "closed"@ {
            PeerConnectionState::Closed
        } else {
            PeerConnectionState::Unspecified
        }
    }

    /// The variant with ordinal `v`; any other value maps to `Unspecified`.
    pub open spec fn spec_from_u8(v: u8) -> PeerConnectionState {
        if v == 1 {
            PeerConnectionState::New
        } else if v == 2 {
            PeerConnectionState::Connecting
        } else if v == 3 {
            PeerConnectionState::Connected
        } else if v == 4 {
            PeerConnectionState::Disconnected
        } else if v == 5 {
            PeerConnectionState::Failed
        } else if v == 6 {
            PeerConnectionState::Closed
        } else {
            PeerConnectionState::Unspecified
        }
    }

    /// Stable wire ordinal of each variant.
    pub open spec fn spec_to_u8(self) -> u8 {
        match self {
            PeerConnectionState::Unspecified => 0,
            PeerConnectionState::New => 1,
            PeerConnectionState::Connecting => 2,
            PeerConnectionState::Connected => 3,
            PeerConnectionState::Disconnected => 4,
            PeerConnectionState::Failed => 5,
            PeerConnectionState::Closed => 6,
        }
    }

    /// Parses the canonical lowercase token; any other input yields
    /// `Unspecified`.
    pub fn from(raw: &str) -> (r: PeerConnectionState)
        ensures
            r == PeerConnectionState::spec_from_str(raw@),
    {
        if str_eq_str(raw, "new") {
            PeerConnectionState::New
        } else if str_eq_str(raw, "connecting") {
            PeerConnectionState::Connecting
        } else if str_eq_str(raw, "connected") {
            PeerConnectionState::Connected
        } else if str_eq_str(raw, "disconnected") {
            PeerConnectionState::Disconnected
        } else if str_eq_str(raw, "failed") {
            PeerConnectionState::Failed
        } else if str_eq_str(raw, "closed") {
            PeerConnectionState::Closed
        } else {
            PeerConnectionState::Unspecified
        }
    }

    /// Parses the wire ordinal; any other value yields `Unspecified`.
    pub fn from_u8(v: u8) -> (r: PeerConnectionState)
        ensures
            r == PeerConnectionState::spec_from_u8(v),
    {
        match v {
            1 => PeerConnectionState::New,
            2 => PeerConnectionState::Connecting,
            3 => PeerConnectionState::Connected,
            4 => PeerConnectionState::Disconnected,
            5 => PeerConnectionState::Failed,
            6 => PeerConnectionState::Closed,
            _ => PeerConnectionState::Unspecified,
        }
    }

    /// The stable wire ordinal of this state.
    pub fn to_u8(self) -> (r: u8)
        ensures
            r == self.spec_to_u8(),
    {
        match self {
            PeerConnectionState::Unspecified => 0,
            PeerConnectionState::New => 1,
            PeerConnectionState::Connecting => 2,
            PeerConnectionState::Connected => 3,
            PeerConnectionState::Disconnected => 4,
            PeerConnectionState::Failed => 5,
            PeerConnectionState::Closed => 6,
        }
    }

    /// Renders the canonical token for this state.
    pub fn to_string(&self) -> (r: String)
        ensures
            r@ == self.spec_to_str(),
    {
        match *self {
            PeerConnectionState::New => "new".to_owned(),
            PeerConnectionState::Connecting => "connecting".to_owned(),
            PeerConnectionState::Connected => "connected".to_owned(),
            PeerConnectionState::Disconnected => "disconnected".to_owned(),
            PeerConnectionState::Failed => "failed".to_owned(),
            PeerConnectionState::Closed => "closed".to_owned(),
            PeerConnectionState::Unspecified => crate::UNSPECIFIED_STR.to_owned(),
        }
    }
}

/// Parsing the canonical rendering of any variant gives the variant back.
pub proof fn lemma_peer_connection_state_string_round_trip(v: PeerConnectionState)
    ensures
        PeerConnectionState::spec_from_str(v.spec_to_str()) == v,
{
    reveal_strlit("new");
    reveal_strlit("connecting");
    reveal_strlit("connected");
    reveal_strlit("disconnected");
    reveal_strlit("failed");
    reveal_strlit("closed");
    reveal_strlit("Unspecified");
    assert("new"@.len() == 3);
    assert("connecting"@.len() == 10);
    assert("connected"@.len() == 9);
    assert("disconnected"@.len() == 12);
    assert("failed"@.len() == 6);
    assert("closed"@.len() == 6);
    assert("Unspecified"@.len() == 11);
    assert("failed"@[0] == 'f' && "closed"@[0] == 'c');
}

/// Parsing the ordinal of any variant gives the variant back.
pub proof fn lemma_peer_connection_state_ordinal_round_trip(v: PeerConnectionState)
    ensures
        PeerConnectionState::spec_from_u8(v.spec_to_u8()) == v,
{
}

/// Any token outside the canonical set parses to `Unspecified`.
pub proof fn lemma_peer_connection_state_unknown_token(s: Seq<char>)
    requires
        s != "new"@,
        s != "connecting"@,
        s != "connected"@,
        s != "disconnected"@,
        s != "failed"@,
        s != "closed"@,
    ensures
        PeerConnectionState::spec_from_str(s) == PeerConnectionState::Unspecified,
{
}

/// Any integer outside the ordinal set parses to `Unspecified`.
pub proof fn lemma_peer_connection_state_unknown_ordinal(v: u8)
    requires
        !(1 <= v <= 6),
    ensures
        PeerConnectionState::spec_from_u8(v) == PeerConnectionState::Unspecified,
{
}

} // verus!
