//! The PeerConnection aggregate state machine: the connection state is a
//! deterministic function of the states of the child ICE and DTLS
//! transports, re-evaluated whenever a child transport reports a change.

use vstd::prelude::*;
use crate::dtls_transport_state::DTLSTransportState;
use crate::ice_transport_state::ICETransportState;
use crate::peer_connection_state::PeerConnectionState;

verus! {

/// An ICE transport counts as settled: connected, completed or closed.
pub open spec fn spec_ice_settled(t: ICETransportState) -> bool {
    t == ICETransportState::Connected || t == ICETransportState::Completed
        || t == ICETransportState::Closed
}

/// A DTLS transport counts as settled: connected or closed.
pub open spec fn spec_dtls_settled(t: DTLSTransportState) -> bool {
    t == DTLSTransportState::Connected || t == DTLSTransportState::Closed
}

/// Some transport has failed.
pub open spec fn spec_any_failed(ice: Seq<ICETransportState>, dtls: Seq<DTLSTransportState>) -> bool {
    ice.contains(ICETransportState::Failed) || dtls.contains(DTLSTransportState::Failed)
}

/// Some transport is still establishing: an ICE transport checking or a
/// DTLS transport connecting.
pub open spec fn spec_any_connecting(
    ice: Seq<ICETransportState>,
    dtls: Seq<DTLSTransportState>,
) -> bool {
    ice.contains(ICETransportState::Checking) || dtls.contains(DTLSTransportState::Connecting)
}

/// Some ICE transport has lost its working pair.
pub open spec fn spec_any_disconnected(ice: Seq<ICETransportState>) -> bool {
    ice.contains(ICETransportState::Disconnected)
}

/// Some transport is connected (or, for ICE, completed).
pub open spec fn spec_any_connected(
    ice: Seq<ICETransportState>,
    dtls: Seq<DTLSTransportState>,
) -> bool {
    ice.contains(ICETransportState::Connected) || ice.contains(ICETransportState::Completed)
        || dtls.contains(DTLSTransportState::Connected)
}

/// Every transport is settled: connected, completed or closed.
pub open spec fn spec_all_settled(
    ice: Seq<ICETransportState>,
    dtls: Seq<DTLSTransportState>,
) -> bool {
    (forall|i: int| 0 <= i < ice.len() ==> spec_ice_settled(#[trigger] ice[i])) && (forall|i: int|
        0 <= i < dtls.len() ==> spec_dtls_settled(#[trigger] dtls[i]))
}

/// The aggregate connection state derived from the child transport states:
/// closed once `close()` was invoked; failed when any transport failed;
/// connecting when any transport is establishing and none failed; connected
/// when all transports are settled and at least one is connected or
/// completed; disconnected when a transport dropped and none failed or is
/// establishing; new otherwise (all new or closed, or no transports).
pub open spec fn spec_aggregate_connection_state(
    is_closed: bool,
    ice: Seq<ICETransportState>,
    dtls: Seq<DTLSTransportState>,
) -> PeerConnectionState {
    if is_closed {
        PeerConnectionState::Closed
    } else if spec_any_failed(ice, dtls) {
        PeerConnectionState::Failed
    } else if spec_any_connecting(ice, dtls) {
        PeerConnectionState::Connecting
    } else if spec_all_settled(ice, dtls) && spec_any_connected(ice, dtls) {
        PeerConnectionState::Connected
    } else if spec_any_disconnected(ice) {
        PeerConnectionState::Disconnected
    } else {
        PeerConnectionState::New
    }
}

fn scan_ice(ice: &Vec<ICETransportState>) -> (r: (bool, bool, bool, bool, bool))
    ensures
        r.0 == ice@.contains(ICETransportState::Failed),
        r.1 == ice@.contains(ICETransportState::Checking),
        r.2 == ice@.contains(ICETransportState::Disconnected),
        r.3 == (ice@.contains(ICETransportState::Connected) || ice@.contains(
            ICETransportState::Completed,
        )),
        r.4 == (forall|i: int| 0 <= i < ice@.len() ==> spec_ice_settled(#[trigger] ice@[i])),
{
    let mut failed = false;
    let mut checking = false;
    let mut disconnected = false;
    let mut connected = false;
    let mut settled = true;
    let mut i: usize = 0;
    while i < ice.len()
        invariant
            0 <= i <= ice@.len(),
            failed == (exists|j: int| 0 <= j < i && #[trigger] ice@[j] == ICETransportState::Failed),
            checking == (exists|j: int|
                0 <= j < i && #[trigger] ice@[j] == ICETransportState::Checking),
            disconnected == (exists|j: int|
                0 <= j < i && #[trigger] ice@[j] == ICETransportState::Disconnected),
            connected == (exists|j: int|
                0 <= j < i && (#[trigger] ice@[j] == ICETransportState::Connected || ice@[j]
                    == ICETransportState::Completed)),
            settled == (forall|j: int| 0 <= j < i ==> spec_ice_settled(#[trigger] ice@[j])),
        decreases ice@.len() - i,
    {
        let t = ice[i];
        failed = failed || t == ICETransportState::Failed;
        checking = checking || t == ICETransportState::Checking;
        disconnected = disconnected || t == ICETransportState::Disconnected;
        connected = connected || t == ICETransportState::Connected || t
            == ICETransportState::Completed;
        settled = settled && (t == ICETransportState::Connected || t
            == ICETransportState::Completed || t == ICETransportState::Closed);
        i += 1;
    }
    (failed, checking, disconnected, connected, settled)
}

fn scan_dtls(dtls: &Vec<DTLSTransportState>) -> (r: (bool, bool, bool, bool))
    ensures
        r.0 == dtls@.contains(DTLSTransportState::Failed),
        r.1 == dtls@.contains(DTLSTransportState::Connecting),
        r.2 == dtls@.contains(DTLSTransportState::Connected),
        r.3 == (forall|i: int| 0 <= i < dtls@.len() ==> spec_dtls_settled(#[trigger] dtls@[i])),
{
    let mut failed = false;
    let mut connecting = false;
    let mut connected = false;
    let mut settled = true;
    let mut i: usize = 0;
    while i < dtls.len()
        invariant
            0 <= i <= dtls@.len(),
            failed == (exists|j: int|
                0 <= j < i && #[trigger] dtls@[j] == DTLSTransportState::Failed),
            connecting == (exists|j: int|
                0 <= j < i && #[trigger] dtls@[j] == DTLSTransportState::Connecting),
            connected == (exists|j: int|
                0 <= j < i && #[trigger] dtls@[j] == DTLSTransportState::Connected),
            settled == (forall|j: int| 0 <= j < i ==> spec_dtls_settled(#[trigger] dtls@[j])),
        decreases dtls@.len() - i,
    {
        let t = dtls[i];
        failed = failed || t == DTLSTransportState::Failed;
        connecting = connecting || t == DTLSTransportState::Connecting;
        connected = connected || t == DTLSTransportState::Connected;
        settled = settled && (t == DTLSTransportState::Connected || t
            == DTLSTransportState::Closed);
        i += 1;
    }
    (failed, connecting, connected, settled)
}

/// Derives the aggregate connection state from the child transport states,
/// exactly as `spec_aggregate_connection_state` lays it out.
pub fn derive_connection_state(
    is_closed: bool,
    ice: &Vec<ICETransportState>,
    dtls: &Vec<DTLSTransportState>,
) -> (r: PeerConnectionState)
    ensures
        r == spec_aggregate_connection_state(is_closed, ice@, dtls@),
{
    if is_closed {
        return PeerConnectionState::Closed;
    }
    let ice_scan = scan_ice(ice);
    let dtls_scan = scan_dtls(dtls);
    if ice_scan.0 || dtls_scan.0 {
        PeerConnectionState::Failed
    } else if ice_scan.1 || dtls_scan.1 {
        PeerConnectionState::Connecting
    } else if ice_scan.4 && dtls_scan.3 && (ice_scan.3 || dtls_scan.2) {
        PeerConnectionState::Connected
    } else if ice_scan.2 {
        PeerConnectionState::Disconnected
    } else {
        PeerConnectionState::New
    }
}

/// Tracks the aggregate state between observations, so that each observed
/// change is reported exactly once, in the order changes occur.
#[derive(Debug, Copy, Clone)]
pub struct ConnectionStateTracker {
    pub is_closed: bool,
    pub current: PeerConnectionState,
}

impl ConnectionStateTracker {
    /// A tracker for a fresh connection: not closed, state New.
    pub fn new() -> (r: ConnectionStateTracker)
        ensures
            r.is_closed == false,
            r.current == PeerConnectionState::New,
    {
        ConnectionStateTracker { is_closed: false, current: PeerConnectionState::New }
    }

    /// Re-derives the aggregate state after a child transport reported a
    /// change; yields the new state exactly when it differs from the
    /// previous one (the caller invokes the state-change handler on it).
    pub fn observe(
        &mut self,
        ice: &Vec<ICETransportState>,
        dtls: &Vec<DTLSTransportState>,
    ) -> (fired: Option<PeerConnectionState>)
        ensures
            final(self).is_closed == old(self).is_closed,
            final(self).current == spec_aggregate_connection_state(
                old(self).is_closed,
                ice@,
                dtls@,
            ),
            fired == if final(self).current != old(self).current {
                Some(final(self).current)
            } else {
                None::<PeerConnectionState>
            },
    {
        let next = derive_connection_state(self.is_closed, ice, dtls);
        if next != self.current {
            self.current = next;
            Some(next)
        } else {
            None
        }
    }

    /// The guard an operation takes when it resumes: once the connection
    /// has been closed, the operation completes with `ErrConnectionClosed`.
    pub fn check_open(&self) -> (r: Result<(), crate::error::Error>)
        ensures
            self.is_closed ==> r == Err::<(), crate::error::Error>(
                crate::error::Error::ErrConnectionClosed,
            ),
            !self.is_closed ==> r is Ok,
    {
        if self.is_closed {
            Err(crate::error::Error::ErrConnectionClosed)
        } else {
            Ok(())
        }
    }

    /// Closes the connection: idempotent and terminal. Yields `Closed`
    /// exactly on the transition.
    pub fn close(&mut self) -> (fired: Option<PeerConnectionState>)
        ensures
            final(self).is_closed == true,
            final(self).current == PeerConnectionState::Closed,
            fired == if old(self).current != PeerConnectionState::Closed {
                Some(PeerConnectionState::Closed)
            } else {
                None::<PeerConnectionState>
            },
    {
        self.is_closed = true;
        if self.current != PeerConnectionState::Closed {
            self.current = PeerConnectionState::Closed;
            Some(PeerConnectionState::Closed)
        } else {
            None
        }
    }
}

proof fn lemma_all_ice_settled_by_contains(ice: Seq<ICETransportState>)
    ensures
        (forall|i: int| 0 <= i < ice.len() ==> spec_ice_settled(#[trigger] ice[i])) <==> (
        !ice.contains(ICETransportState::Unspecified) && !ice.contains(ICETransportState::New)
            && !ice.contains(ICETransportState::Checking) && !ice.contains(
            ICETransportState::Disconnected,
        ) && !ice.contains(ICETransportState::Failed)),
{
    if !ice.contains(ICETransportState::Unspecified) && !ice.contains(ICETransportState::New)
        && !ice.contains(ICETransportState::Checking) && !ice.contains(
        ICETransportState::Disconnected,
    ) && !ice.contains(ICETransportState::Failed) {
        assert forall|i: int| 0 <= i < ice.len() implies spec_ice_settled(#[trigger] ice[i]) by {
            match ice[i] {
                ICETransportState::Unspecified => assert(ice.contains(
                    ICETransportState::Unspecified,
                )),
                ICETransportState::New => assert(ice.contains(ICETransportState::New)),
                ICETransportState::Checking => assert(ice.contains(ICETransportState::Checking)),
                ICETransportState::Disconnected => assert(ice.contains(
                    ICETransportState::Disconnected,
                )),
                ICETransportState::Failed => assert(ice.contains(ICETransportState::Failed)),
                _ => {},
            }
        }
    }
}

proof fn lemma_all_dtls_settled_by_contains(dtls: Seq<DTLSTransportState>)
    ensures
        (forall|i: int| 0 <= i < dtls.len() ==> spec_dtls_settled(#[trigger] dtls[i])) <==> (
        !dtls.contains(DTLSTransportState::Unspecified) && !dtls.contains(DTLSTransportState::New)
            && !dtls.contains(DTLSTransportState::Connecting) && !dtls.contains(
            DTLSTransportState::Failed,
        )),
{
    if !dtls.contains(DTLSTransportState::Unspecified) && !dtls.contains(DTLSTransportState::New)
        && !dtls.contains(DTLSTransportState::Connecting) && !dtls.contains(
        DTLSTransportState::Failed,
    ) {
        assert forall|i: int| 0 <= i < dtls.len() implies spec_dtls_settled(
            #[trigger] dtls[i],
        ) by {
            match dtls[i] {
                DTLSTransportState::Unspecified => assert(dtls.contains(
                    DTLSTransportState::Unspecified,
                )),
                DTLSTransportState::New => assert(dtls.contains(DTLSTransportState::New)),
                DTLSTransportState::Connecting => assert(dtls.contains(
                    DTLSTransportState::Connecting,
                )),
                DTLSTransportState::Failed => assert(dtls.contains(DTLSTransportState::Failed)),
                _ => {},
            }
        }
    }
}

/// The aggregate state depends only on the multiset of child transport
/// states: two histories that reach the same multisets, in whatever order,
/// derive the same connection state.
pub proof fn lemma_aggregate_state_multiset_deterministic(
    is_closed: bool,
    ice1: Seq<ICETransportState>,
    ice2: Seq<ICETransportState>,
    dtls1: Seq<DTLSTransportState>,
    dtls2: Seq<DTLSTransportState>,
)
    requires
        ice1.to_multiset() == ice2.to_multiset(),
        dtls1.to_multiset() == dtls2.to_multiset(),
    ensures
        spec_aggregate_connection_state(is_closed, ice1, dtls1) == spec_aggregate_connection_state(
            is_closed,
            ice2,
            dtls2,
        ),
{
    broadcast use vstd::seq_lib::group_to_multiset_ensures;

    assert forall|t: ICETransportState| #[trigger] ice1.contains(t) <==> ice2.contains(t) by {
        vstd::seq_lib::to_multiset_contains(ice1, t);
        vstd::seq_lib::to_multiset_contains(ice2, t);
        assert(ice1.to_multiset().count(t) == ice2.to_multiset().count(t));
    }
    assert forall|t: DTLSTransportState| #[trigger] dtls1.contains(t) <==> dtls2.contains(t) by {
        vstd::seq_lib::to_multiset_contains(dtls1, t);
        vstd::seq_lib::to_multiset_contains(dtls2, t);
        assert(dtls1.to_multiset().count(t) == dtls2.to_multiset().count(t));
    }
    lemma_all_ice_settled_by_contains(ice1);
    lemma_all_ice_settled_by_contains(ice2);
    lemma_all_dtls_settled_by_contains(dtls1);
    lemma_all_dtls_settled_by_contains(dtls2);
}

} // verus!
