//! ICE candidate-gathering state and its canonical string form.

use vstd::prelude::*;
use crate::strutil::str_eq_str;

verus! {

/// ICEGatheringState describes the state of the candidate gathering process.
#[derive(Debug, Copy, Clone, PartialEq, Eq, Structural)]
pub enum ICEGatheringState {
    Unspecified,
    /// Any of the ICETransports are in the "new" gathering state and none
    /// of the transports are in the "gathering" state, or there are no
    /// transports.
    New,
    /// Any of the ICETransports are in the "gathering" state.
    Gathering,
    /// At least one ICETransport exists, and all ICETransports are in the
    /// "completed" gathering state.
    Complete,
}

impl Default for ICEGatheringState {
    fn default() -> (r: Self)
        ensures
            r == ICEGatheringState::Unspecified,
    {
        ICEGatheringState::Unspecified
    }
}

impl ICEGatheringState {
    /// Canonical rendering of each variant; `Unspecified` renders as the
    /// process-wide sentinel token.
    pub open spec fn spec_to_str(self) -> Seq<char> {
        match self {
            ICEGatheringState::New => "new"@,
            ICEGatheringState::Gathering => "gathering"@,
            ICEGatheringState::Complete => "complete"@,
            ICEGatheringState::Unspecified => "Unspecified"@,
        }
    }

    /// The variant whose canonical token is `s` exactly; any other string
    /// maps to `Unspecified`.
    pub open spec fn spec_from_str(s: Seq<char>) -> ICEGatheringState {
        if s == "new"@ {
            ICEGatheringState::New
        } else if s == "gathering"@ {
            ICEGatheringState::Gathering
        } else if s == "complete"@ {
            ICEGatheringState::Complete
        } else {
            ICEGatheringState::Unspecified
        }
    }

    /// Parses the canonical lowercase token; any other input yields
    /// `Unspecified`.
    pub fn from(raw: &str) -> (r: ICEGatheringState)
        ensures
            r == ICEGatheringState::spec_from_str(raw@),
    {
        if str_eq_str(raw, "new") {
            ICEGatheringState::New
        } else if str_eq_str(raw, "gathering") {
            ICEGatheringState::Gathering
        } else if str_eq_str(raw, "complete") {
            ICEGatheringState::Complete
        } else {
            ICEGatheringState::Unspecified
        }
    }

    /// Renders the canonical token for this state.
    pub fn to_string(&self) -> (r: String)
        ensures
            r@ == self.spec_to_str(),
    {
        match *self {
            ICEGatheringState::New => "new".to_owned(),
            ICEGatheringState::Gathering => "gathering".to_owned(),
            ICEGatheringState::Complete => "complete".to_owned(),
            ICEGatheringState::Unspecified => crate::UNSPECIFIED_STR.to_owned(),
        }
    }
}

/// Parsing the canonical rendering of any variant gives the variant back.
pub proof fn lemma_ice_gathering_state_string_round_trip(v: ICEGatheringState)
    ensures
        ICEGatheringState::spec_from_str(v.spec_to_str()) == v,
{
    reveal_strlit("new");
    reveal_strlit("gathering");
    reveal_strlit("complete");
    reveal_strlit("Unspecified");
    assert("new"@.len() == 3);
    assert("gathering"@.len() == 9);
    assert("complete"@.len() == 8);
    assert("Unspecified"@.len() == 11);
}

/// Any token outside the canonical set parses to `Unspecified`.
pub proof fn lemma_ice_gathering_state_unknown_token(s: Seq<char>)
    requires
        s != "new"@,
        s != "gathering"@,
        s != "complete"@,
    ensures
        ICEGatheringState::spec_from_str(s) == ICEGatheringState::Unspecified,
{
}

} // verus!
