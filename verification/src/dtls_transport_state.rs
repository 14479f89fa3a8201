//! DTLS transport establishment state and its canonical string and numeric
//! forms.

use vstd::prelude::*;
use crate::strutil::str_eq_str;

verus! {

/// DTLSTransportState indicates the DTLS transport establishment state.
#[derive(Debug, Copy, Clone, PartialEq, Eq, Structural)]
pub enum DTLSTransportState {
    Unspecified,
    /// DTLS has not started negotiating yet.
    New,
    /// DTLS is in the process of negotiating a secure connection and
    /// verifying the remote fingerprint.
    Connecting,
    /// DTLS has completed negotiation of a secure connection and verified
    /// the remote fingerprint.
    Connected,
    /// The transport has been closed intentionally as the result of receipt
    /// of a close_notify alert, or calling close().
    Closed,
    /// The transport has failed as the result of an error (such as receipt
    /// of an error alert or failure to validate the remote fingerprint).
    Failed,
}

impl Default for DTLSTransportState {
    fn default() -> (r: Self)
        ensures
            r == DTLSTransportState::Unspecified,
    {
        DTLSTransportState::Unspecified
    }
}

impl DTLSTransportState {
    /// Canonical rendering of each variant; `Unspecified` renders as the
    /// process-wide sentinel token.
    pub open spec fn spec_to_str(self) -> Seq<char> {
        match self {
            DTLSTransportState::New => "new"@,
            DTLSTransportState::Connecting => "connecting"@,
            DTLSTransportState::Connected => "connected"@,
            DTLSTransportState::Closed => "closed"@,
            DTLSTransportState::Failed => "failed"@,
            DTLSTransportState::Unspecified => "Unspecified"@,
        }
    }

    /// The variant whose canonical token is `s` exactly; any other string
    /// maps to `Unspecified`.
    pub open spec fn spec_from_str(s: Seq<char>) -> DTLSTransportState {
        if s == "new"@ {
            DTLSTransportState::New
        } else if s == "connecting"@ {
            DTLSTransportState::Connecting
        } else if s == "connected"@ {
            DTLSTransportState::Connected
        } else if s == "closed"@ {
            DTLSTransportState::Closed
        } else if s == "failed"@ {
            DTLSTransportState::Failed
        } else {
            DTLSTransportState::Unspecified
        }
    }

    /// The variant with ordinal `v`; any other value maps to `Unspecified`.
    pub open spec fn spec_from_u8(v: u8) -> DTLSTransportState {
        if v == 1 {
            DTLSTransportState::New
        } else if v == 2 {
            DTLSTransportState::Connecting
        } else if v == 3 {
            DTLSTransportState::Connected
        } else if v == 4 {
            DTLSTransportState::Closed
        } else if v == 5 {
            DTLSTransportState::Failed
        } else {
            DTLSTransportState::Unspecified
        }
    }

    /// Stable wire ordinal of each variant.
    pub open spec fn spec_to_u8(self) -> u8 {
        match self {
            DTLSTransportState::Unspecified => 0,
            DTLSTransportState::New => 1,
            DTLSTransportState::Connecting => 2,
            DTLSTransportState::Connected => 3,
            DTLSTransportState::Closed => 4,
            DTLSTransportState::Failed => 5,
        }
    }

    /// Parses the canonical lowercase token; any other input yields
    /// `Unspecified`.
    pub fn from(raw: &str) -> (r: DTLSTransportState)
        ensures
            r == DTLSTransportState::spec_from_str(raw@),
    {
        if str_eq_str(raw, "new") {
            DTLSTransportState::New
        } else if str_eq_str(raw, "connecting") {
            DTLSTransportState::Connecting
        } else if str_eq_str(raw, "connected") {
            DTLSTransportState::Connected
        } else if str_eq_str(raw, "closed") {
            DTLSTransportState::Closed
        } else if str_eq_str(raw, "failed") {
            DTLSTransportState::Failed
        } else {
            DTLSTransportState::Unspecified
        }
    }

    /// Parses the wire ordinal; any other value yields `Unspecified`.
    pub fn from_u8(v: u8) -> (r: DTLSTransportState)
        ensures
            r == DTLSTransportState::spec_from_u8(v),
    {
        match v {
            1 => DTLSTransportState::New,
            2 => DTLSTransportState::Connecting,
            3 => DTLSTransportState::Connected,
            4 => DTLSTransportState::Closed,
            5 => DTLSTransportState::Failed,
            _ => DTLSTransportState::Unspecified,
        }
    }

    /// The stable wire ordinal of this state.
    pub fn to_u8(self) -> (r: u8)
        ensures
            r == self.spec_to_u8(),
    {
        match self {
            DTLSTransportState::Unspecified => 0,
            DTLSTransportState::New => 1,
            DTLSTransportState::Connecting => 2,
            DTLSTransportState::Connected => 3,
            DTLSTransportState::Closed => 4,
            DTLSTransportState::Failed => 5,
        }
    }

    /// Renders the canonical token for this state.
    pub fn to_string(&self) -> (r: String)
        ensures
            r@ == self.spec_to_str(),
    {
        match *self {
            DTLSTransportState::New => "new".to_owned(),
            DTLSTransportState::Connecting => "connecting".to_owned(),
            DTLSTransportState::Connected => "connected".to_owned(),
            DTLSTransportState::Closed => "closed".to_owned(),
            DTLSTransportState::Failed => "failed".to_owned(),
            DTLSTransportState::Unspecified => crate::UNSPECIFIED_STR.to_owned(),
        }
    }
}

/// Parsing the canonical rendering of any variant gives the variant back.
pub proof fn lemma_dtls_transport_state_string_round_trip(v: DTLSTransportState)
    ensures
        DTLSTransportState::spec_from_str(v.spec_to_str()) == v,
{
    reveal_strlit("new");
    reveal_strlit("connecting");
    reveal_strlit("connected");
    reveal_strlit("closed");
    reveal_strlit("failed");
    reveal_strlit("Unspecified");
    assert("new"@.len() == 3);
    assert("connecting"@.len() == 10);
    assert("connected"@.len() == 9);
    assert("closed"@.len() == 6);
    assert("failed"@.len() == 6);
    assert("Unspecified"@.len() == 11);
    assert("closed"@[0] == 'c' && "failed"@[0] == 'f');
}

/// Parsing the ordinal of any variant gives the variant back.
pub proof fn lemma_dtls_transport_state_ordinal_round_trip(v: DTLSTransportState)
    ensures
        DTLSTransportState::spec_from_u8(v.spec_to_u8()) == v,
{
}

/// Any token outside the canonical set parses to `Unspecified`.
pub proof fn lemma_dtls_transport_state_unknown_token(s: Seq<char>)
    requires
        s != "new"@,
        s != "connecting"@,
        s != "connected"@,
        s != "closed"@,
        s != "failed"@,
    ensures
        DTLSTransportState::spec_from_str(s) == DTLSTransportState::Unspecified,
{
}

/// Any integer outside the ordinal set parses to `Unspecified`.
pub proof fn lemma_dtls_transport_state_unknown_ordinal(v: u8)
    requires
        !(1 <= v <= 5),
    ensures
        DTLSTransportState::spec_from_u8(v) == DTLSTransportState::Unspecified,
{
}

} // verus!
