use webrtc_core::dtls_transport_state::DTLSTransportState;
use webrtc_core::ice_gathering_state::ICEGatheringState;
use webrtc_core::peer_connection_state::PeerConnectionState;
use webrtc_core::UNSPECIFIED_STR;

#[test]
fn test_new_dtls_transport_state() {
    let tests = vec![
        (UNSPECIFIED_STR, DTLSTransportState::Unspecified),
        ("new", DTLSTransportState::New),
        ("connecting", DTLSTransportState::Connecting),
        ("connected", DTLSTransportState::Connected),
        ("closed", DTLSTransportState::Closed),
        ("failed", DTLSTransportState::Failed),
    ];

    for (state_string, expected_state) in tests {
        assert_eq!(
            expected_state,
            DTLSTransportState::from(state_string),
            "testCase: {}",
            expected_state.to_string(),
        );
    }
}

#[test]
fn test_dtls_transport_state_string() {
    let tests = vec![
        (DTLSTransportState::Unspecified, UNSPECIFIED_STR),
        (DTLSTransportState::New, "new"),
        (DTLSTransportState::Connecting, "connecting"),
        (DTLSTransportState::Connected, "connected"),
        (DTLSTransportState::Closed, "closed"),
        (DTLSTransportState::Failed, "failed"),
    ];

    for (state, expected_string) in tests {
        assert_eq!(expected_string, state.to_string());
    }
}

#[test]
fn test_new_ice_gathering_state() {
    let tests = vec![
        ("Unspecified", ICEGatheringState::Unspecified),
        ("new", ICEGatheringState::New),
        ("gathering", ICEGatheringState::Gathering),
        ("complete", ICEGatheringState::Complete),
    ];

    for (state_string, expected_state) in tests {
        assert_eq!(expected_state, ICEGatheringState::from(state_string));
    }
}

#[test]
fn test_ice_gathering_state_string() {
    let tests = vec![
        (ICEGatheringState::Unspecified, "Unspecified"),
        (ICEGatheringState::New, "new"),
        (ICEGatheringState::Gathering, "gathering"),
        (ICEGatheringState::Complete, "complete"),
    ];

    for (state, expected_string) in tests {
        assert_eq!(expected_string, state.to_string());
    }
}

#[test]
fn test_new_peer_connection_state() {
    let tests = vec![
        (UNSPECIFIED_STR, PeerConnectionState::Unspecified),
        ("new", PeerConnectionState::New),
        ("connecting", PeerConnectionState::Connecting),
        ("connected", PeerConnectionState::Connected),
        ("disconnected", PeerConnectionState::Disconnected),
        ("failed", PeerConnectionState::Failed),
        ("closed", PeerConnectionState::Closed),
    ];

    for (state_string, expected_state) in tests {
        assert_eq!(
            expected_state,
            PeerConnectionState::from(state_string),
            "testCase: {}",
            expected_state.to_string(),
        );
    }
}

#[test]
fn test_peer_connection_state_string() {
    let tests = vec![
        (PeerConnectionState::Unspecified, UNSPECIFIED_STR),
        (PeerConnectionState::New, "new"),
        (PeerConnectionState::Connecting, "connecting"),
        (PeerConnectionState::Connected, "connected"),
        (PeerConnectionState::Disconnected, "disconnected"),
        (PeerConnectionState::Failed, "failed"),
        (PeerConnectionState::Closed, "closed"),
    ];

    for (state, expected_string) in tests {
        assert_eq!(expected_string, state.to_string());
    }
}

#[test]
fn test_enum_ordinals_round_trip() {
    assert_eq!(DTLSTransportState::from_u8(1), DTLSTransportState::New);
    assert_eq!(DTLSTransportState::from_u8(2), DTLSTransportState::Connecting);
    assert_eq!(DTLSTransportState::from_u8(3), DTLSTransportState::Connected);
    assert_eq!(DTLSTransportState::from_u8(4), DTLSTransportState::Closed);
    assert_eq!(DTLSTransportState::from_u8(5), DTLSTransportState::Failed);
    assert_eq!(DTLSTransportState::from_u8(0), DTLSTransportState::Unspecified);
    assert_eq!(DTLSTransportState::from_u8(6), DTLSTransportState::Unspecified);
    assert_eq!(DTLSTransportState::Closed.to_u8(), 4);

    assert_eq!(PeerConnectionState::from_u8(1), PeerConnectionState::New);
    assert_eq!(PeerConnectionState::from_u8(2), PeerConnectionState::Connecting);
    assert_eq!(PeerConnectionState::from_u8(3), PeerConnectionState::Connected);
    assert_eq!(PeerConnectionState::from_u8(4), PeerConnectionState::Disconnected);
    assert_eq!(PeerConnectionState::from_u8(5), PeerConnectionState::Failed);
    assert_eq!(PeerConnectionState::from_u8(6), PeerConnectionState::Closed);
    assert_eq!(PeerConnectionState::from_u8(7), PeerConnectionState::Unspecified);
    assert_eq!(PeerConnectionState::Closed.to_u8(), 6);
}

#[test]
fn test_unknown_tokens_parse_to_unspecified() {
    assert_eq!(DTLSTransportState::from(""), DTLSTransportState::Unspecified);
    assert_eq!(DTLSTransportState::from("NEW"), DTLSTransportState::Unspecified);
    assert_eq!(DTLSTransportState::from("bogus"), DTLSTransportState::Unspecified);
    assert_eq!(ICEGatheringState::from("Gathering"), ICEGatheringState::Unspecified);
    assert_eq!(PeerConnectionState::from("CLOSED"), PeerConnectionState::Unspecified);
}

#[test]
fn test_enum_defaults_are_unspecified() {
    assert_eq!(DTLSTransportState::default(), DTLSTransportState::Unspecified);
    assert_eq!(ICEGatheringState::default(), ICEGatheringState::Unspecified);
    assert_eq!(PeerConnectionState::default(), PeerConnectionState::Unspecified);
}
