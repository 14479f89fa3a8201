//! The negotiation-needed coalescing machine. Signals that renegotiation may
//! be required are folded into three states so that at most one negotiation
//! is in flight and at most one more is queued, however bursty the signals.

use vstd::prelude::*;

verus! {

/// NegotiationNeededState tracks the in-flight/queued status of the
/// negotiation-needed event.
#[derive(Debug, Copy, Clone, PartialEq, Eq, Structural)]
pub enum NegotiationNeededState {
    /// Not running and the queue is empty.
    Empty,
    /// Running and the queue is empty.
    Run,
    /// Running with one follow-up negotiation queued.
    Queue,
}

impl Default for NegotiationNeededState {
    fn default() -> (r: Self)
        ensures
            r == NegotiationNeededState::Empty,
    {
        NegotiationNeededState::Empty
    }
}

impl NegotiationNeededState {
    /// The variant with ordinal `v`; any other value maps to `Empty`.
    pub open spec fn spec_from_u8(v: u8) -> NegotiationNeededState {
        if v == 1 {
            NegotiationNeededState::Run
        } else if v == 2 {
            NegotiationNeededState::Queue
        } else {
            NegotiationNeededState::Empty
        }
    }

    /// Parses the ordinal; any other value yields `Empty`.
    pub fn from_u8(v: u8) -> (r: NegotiationNeededState)
        ensures
            r == NegotiationNeededState::spec_from_u8(v),
    {
        match v {
            1 => NegotiationNeededState::Run,
            2 => NegotiationNeededState::Queue,
            _ => NegotiationNeededState::Empty,
        }
    }
}

/// Reaction to one "something changed" signal: the successor state, and
/// whether one negotiation-needed event is scheduled now.
pub open spec fn spec_on_signal(s: NegotiationNeededState) -> (NegotiationNeededState, bool) {
    match s {
        NegotiationNeededState::Empty => (NegotiationNeededState::Run, true),
        NegotiationNeededState::Run => (NegotiationNeededState::Queue, false),
        NegotiationNeededState::Queue => (NegotiationNeededState::Queue, false),
    }
}

/// Reaction to the completion of a negotiation event: the successor state,
/// and whether the negotiation re-runs once.
pub open spec fn spec_on_done(s: NegotiationNeededState) -> (NegotiationNeededState, bool) {
    match s {
        NegotiationNeededState::Queue => (NegotiationNeededState::Run, true),
        NegotiationNeededState::Run => (NegotiationNeededState::Empty, false),
        NegotiationNeededState::Empty => (NegotiationNeededState::Empty, false),
    }
}

/// The coalescing machine driven by the event dispatcher.
#[derive(Debug, Copy, Clone)]
pub struct NegotiationCoalescer {
    pub state: NegotiationNeededState,
}

impl NegotiationCoalescer {
    /// A coalescer at rest.
    pub fn new() -> (r: NegotiationCoalescer)
        ensures
            r.state == NegotiationNeededState::Empty,
    {
        NegotiationCoalescer { state: NegotiationNeededState::Empty }
    }

    /// Records one negotiation-needed signal; true when a negotiation event
    /// must be scheduled now.
    pub fn signal(&mut self) -> (fire: bool)
        ensures
            final(self).state == spec_on_signal(old(self).state).0,
            fire == spec_on_signal(old(self).state).1,
    {
        match self.state {
            NegotiationNeededState::Empty => {
                self.state = NegotiationNeededState::Run;
                true
            },
            NegotiationNeededState::Run => {
                self.state = NegotiationNeededState::Queue;
                false
            },
            NegotiationNeededState::Queue => false,
        }
    }

    /// Records the completion of a negotiation event; true when the
    /// negotiation must re-run once because a signal arrived in flight.
    pub fn done(&mut self) -> (rerun: bool)
        ensures
            final(self).state == spec_on_done(old(self).state).0,
            rerun == spec_on_done(old(self).state).1,
    {
        match self.state {
            NegotiationNeededState::Queue => {
                self.state = NegotiationNeededState::Run;
                true
            },
            NegotiationNeededState::Run => {
                self.state = NegotiationNeededState::Empty;
                false
            },
            NegotiationNeededState::Empty => false,
        }
    }
}

/// The state after a burst of `k` signals, and how many negotiation events
/// the burst scheduled.
pub open spec fn spec_signal_burst(s: NegotiationNeededState, k: nat) -> (
    NegotiationNeededState,
    nat,
)
    decreases k,
{
    if k == 0 {
        (s, 0)
    } else {
        let first = spec_on_signal(s);
        let rest = spec_signal_burst(first.0, (k - 1) as nat);
        (rest.0, rest.1 + if first.1 {
            1nat
        } else {
            0nat
        })
    }
}

proof fn lemma_burst_from_running(s: NegotiationNeededState, k: nat)
    requires
        s == NegotiationNeededState::Run || s == NegotiationNeededState::Queue,
    ensures
        spec_signal_burst(s, k).1 == 0,
        spec_signal_burst(s, k).0 == if k == 0 {
            s
        } else {
            NegotiationNeededState::Queue
        },
    decreases k,
{
    if k > 0 {
        lemma_burst_from_running(NegotiationNeededState::Queue, (k - 1) as nat);
    }
}

/// Any burst of `k >= 1` signals against an idle machine schedules exactly
/// one immediate negotiation event; when that event completes, the
/// negotiation re-runs exactly once if and only if at least one further
/// signal arrived while it was in flight; and after the last run completes
/// the machine is idle again. A burst therefore yields one or two
/// negotiation events, never more.
pub proof fn lemma_negotiation_coalescing(k: nat)
    requires
        k >= 1,
    ensures
        ({
            let burst = spec_signal_burst(NegotiationNeededState::Empty, k);
            let first_done = spec_on_done(burst.0);
            let second_done = spec_on_done(first_done.0);
            &&& burst.1 == 1
            &&& first_done.1 == (k >= 2)
            &&& second_done.1 == false
            &&& (if k >= 2 {
                second_done.0
            } else {
                first_done.0
            }) == NegotiationNeededState::Empty
        }),
{
    lemma_burst_from_running(NegotiationNeededState::Run, (k - 1) as nat);
}

} // verus!
