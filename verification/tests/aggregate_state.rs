use webrtc_core::connection_state::{derive_connection_state, ConnectionStateTracker};
use webrtc_core::dtls_transport_state::DTLSTransportState;
use webrtc_core::ice_transport_state::ICETransportState;
use webrtc_core::peer_connection_state::PeerConnectionState;

// Two transports: ICE connected with DTLS still connecting is Connecting;
// once DTLS connects the aggregate is Connected and the handler fires
// exactly once with the new state.
#[test]
fn test_aggregate_two_transports_connecting_then_connected() {
    let mut tracker = ConnectionStateTracker::new();
    assert_eq!(tracker.current, PeerConnectionState::New);

    let ice = vec![ICETransportState::Connected];
    let dtls = vec![DTLSTransportState::Connecting];
    assert_eq!(tracker.observe(&ice, &dtls), Some(PeerConnectionState::Connecting));
    assert_eq!(tracker.current, PeerConnectionState::Connecting);

    let dtls = vec![DTLSTransportState::Connected];
    assert_eq!(tracker.observe(&ice, &dtls), Some(PeerConnectionState::Connected));
    assert_eq!(tracker.current, PeerConnectionState::Connected);

    // The same states again: no change, the handler must not fire.
    assert_eq!(tracker.observe(&ice, &dtls), None);
}

#[test]
fn test_aggregate_state_table() {
    let no_ice: Vec<ICETransportState> = vec![];
    let no_dtls: Vec<DTLSTransportState> = vec![];
    assert_eq!(derive_connection_state(false, &no_ice, &no_dtls), PeerConnectionState::New);

    let ice = vec![ICETransportState::New];
    let dtls = vec![DTLSTransportState::New];
    assert_eq!(derive_connection_state(false, &ice, &dtls), PeerConnectionState::New);

    let ice = vec![ICETransportState::Checking];
    assert_eq!(derive_connection_state(false, &ice, &dtls), PeerConnectionState::Connecting);

    let ice = vec![ICETransportState::Connected];
    let dtls = vec![DTLSTransportState::Failed];
    assert_eq!(derive_connection_state(false, &ice, &dtls), PeerConnectionState::Failed);

    let ice = vec![ICETransportState::Disconnected];
    let dtls = vec![DTLSTransportState::Connected];
    assert_eq!(derive_connection_state(false, &ice, &dtls), PeerConnectionState::Disconnected);

    let ice = vec![ICETransportState::Completed, ICETransportState::Closed];
    let dtls = vec![DTLSTransportState::Connected];
    assert_eq!(derive_connection_state(false, &ice, &dtls), PeerConnectionState::Connected);

    // All transports closed: back to New.
    let ice = vec![ICETransportState::Closed];
    let dtls = vec![DTLSTransportState::Closed];
    assert_eq!(derive_connection_state(false, &ice, &dtls), PeerConnectionState::New);

    // Closed wins over everything.
    let ice = vec![ICETransportState::Failed];
    assert_eq!(derive_connection_state(true, &ice, &dtls), PeerConnectionState::Closed);
}

// The aggregate state depends only on the multiset of child states, not on
// the order the transports are listed in.
#[test]
fn test_aggregate_state_order_independent() {
    let dtls = vec![DTLSTransportState::Connected];
    let one_order = vec![
        ICETransportState::Connected,
        ICETransportState::Disconnected,
        ICETransportState::Checking,
    ];
    let other_order = vec![
        ICETransportState::Checking,
        ICETransportState::Connected,
        ICETransportState::Disconnected,
    ];
    assert_eq!(
        derive_connection_state(false, &one_order, &dtls),
        derive_connection_state(false, &other_order, &dtls)
    );
    assert_eq!(derive_connection_state(false, &one_order, &dtls), PeerConnectionState::Connecting);
}

#[test]
fn test_close_is_idempotent_and_terminal() {
    let mut tracker = ConnectionStateTracker::new();
    assert_eq!(tracker.check_open(), Ok(()));
    assert_eq!(tracker.close(), Some(PeerConnectionState::Closed));
    assert_eq!(tracker.check_open(), Err(webrtc_core::error::Error::ErrConnectionClosed));
    assert_eq!(tracker.close(), None);
    assert_eq!(tracker.current, PeerConnectionState::Closed);

    let ice = vec![ICETransportState::Connected];
    let dtls = vec![DTLSTransportState::Connected];
    assert_eq!(tracker.observe(&ice, &dtls), None);
    assert_eq!(tracker.current, PeerConnectionState::Closed);
}

#[test]
fn test_ice_transport_state_tokens() {
    assert_eq!(ICETransportState::from("checking"), ICETransportState::Checking);
    assert_eq!(ICETransportState::from("completed"), ICETransportState::Completed);
    assert_eq!(ICETransportState::from("bogus"), ICETransportState::Unspecified);
    assert_eq!(ICETransportState::Disconnected.to_string(), "disconnected");
}
