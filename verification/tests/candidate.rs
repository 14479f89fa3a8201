use webrtc_core::error::Error;
use webrtc_core::ice_candidate::{
    candidate_init_from_marshaled, ICECandidate, ICECandidateType, ICEProtocol,
};

fn host_candidate() -> ICECandidate {
    ICECandidate::from_agent_fields(
        "candidate-1".to_owned(),
        "foundation-a".to_owned(),
        2130706431,
        "192.168.1.7".to_owned(),
        "udp",
        53634,
        1,
        ICECandidateType::Host,
        String::new(),
        None,
    )
}

#[test]
fn test_ice_protocol_parse_is_case_insensitive() {
    assert_eq!(ICEProtocol::from("udp"), ICEProtocol::Udp);
    assert_eq!(ICEProtocol::from("UDP"), ICEProtocol::Udp);
    assert_eq!(ICEProtocol::from("tcp"), ICEProtocol::Tcp);
    assert_eq!(ICEProtocol::from("Tcp"), ICEProtocol::Tcp);
    assert_eq!(ICEProtocol::from("sctp"), ICEProtocol::Unspecified);
    assert_eq!(ICEProtocol::Udp.to_string(), "udp");
    assert_eq!(ICEProtocol::Tcp.to_string(), "tcp");
}

#[test]
fn test_ice_candidate_type_tokens() {
    assert_eq!(ICECandidateType::from("host"), ICECandidateType::Host);
    assert_eq!(ICECandidateType::from("srflx"), ICECandidateType::Srflx);
    assert_eq!(ICECandidateType::from("prflx"), ICECandidateType::Prflx);
    assert_eq!(ICECandidateType::from("relay"), ICECandidateType::Relay);
    assert_eq!(ICECandidateType::from("HOST"), ICECandidateType::Unspecified);
    assert_eq!(ICECandidateType::Srflx.to_string(), "srflx");
    assert_eq!(ICECandidateType::default(), ICECandidateType::Unspecified);
}

#[test]
fn test_from_agent_fields_maps_protocol_and_related() {
    let c = host_candidate();
    assert_eq!(c.protocol, ICEProtocol::Udp);
    assert_eq!(c.related_address, "");
    assert_eq!(c.related_port, 0);

    let srflx = ICECandidate::from_agent_fields(
        "candidate-2".to_owned(),
        "foundation-b".to_owned(),
        1694498815,
        "203.0.113.9".to_owned(),
        "TCP",
        443,
        1,
        ICECandidateType::Srflx,
        "passive".to_owned(),
        Some(("192.168.1.7".to_owned(), 53634)),
    );
    assert_eq!(srflx.protocol, ICEProtocol::Tcp);
    assert_eq!(srflx.related_address, "192.168.1.7");
    assert_eq!(srflx.related_port, 53634);
}

#[test]
fn test_to_ice_plan_by_candidate_type() {
    let host = host_candidate();
    let plan = host.to_ice_plan().unwrap();
    assert_eq!(plan.candidate_id, "candidate-1");
    assert_eq!(plan.network, "udp");
    assert_eq!(plan.address, "192.168.1.7");
    assert_eq!(plan.port, 53634);
    assert_eq!(plan.typ, ICECandidateType::Host);
    assert_eq!(plan.rel_addr, "");
    assert_eq!(plan.rel_port, 0);

    let mut relay = host_candidate();
    relay.typ = ICECandidateType::Relay;
    relay.related_address = "198.51.100.4".to_owned();
    relay.related_port = 3478;
    let plan = relay.to_ice_plan().unwrap();
    assert_eq!(plan.typ, ICECandidateType::Relay);
    assert_eq!(plan.rel_addr, "198.51.100.4");
    assert_eq!(plan.rel_port, 3478);
}

#[test]
fn test_to_ice_plan_unspecified_type_fails() {
    let mut c = host_candidate();
    c.typ = ICECandidateType::Unspecified;
    assert_eq!(c.to_ice_plan().unwrap_err(), Error::ErrICECandidateTypeUnknown);
}

#[test]
fn test_candidate_init_from_marshaled() {
    let init = candidate_init_from_marshaled("1 1 udp 2130706431 192.168.1.7 53634 typ host");
    assert_eq!(init.candidate, "candidate:1 1 udp 2130706431 192.168.1.7 53634 typ host");
    assert_eq!(init.sdp_mid, "");
    assert_eq!(init.sdp_mline_index, 0);
    assert_eq!(init.username_fragment, "");
}

#[test]
fn test_candidate_display_string() {
    let c = host_candidate();
    assert_eq!(c.to_display_string(), "udp host 192.168.1.7:53634");

    let mut srflx = host_candidate();
    srflx.typ = ICECandidateType::Srflx;
    srflx.related_address = "10.0.0.2".to_owned();
    // The related address is concatenated without a separator; the literal
    // format is preserved for compatibility.
    assert_eq!(srflx.to_display_string(), "udp srflx 192.168.1.7:5363410.0.0.2");
}

#[test]
fn test_candidate_equality_is_structural() {
    let a = host_candidate();
    let b = a.clone();
    assert_eq!(a, b);

    let mut c = host_candidate();
    c.port = 9;
    assert!(a != c);
}
