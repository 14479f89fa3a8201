use webrtc_core::codec_negotiation::{negotiate_codecs, rtpmap_line, rtpmap_lines};
use webrtc_core::media_engine::{MediaEngine, MIME_TYPE_VP8};
use webrtc_core::negotiation::{NegotiationCoalescer, NegotiationNeededState};
use webrtc_core::rtp_codec::{RTPCodecCapability, RTPCodecParameters, RTPCodecType};
use webrtc_core::rtp_transceiver::{RTPTransceiver, RTPTransceiverDirection};

fn codec(mime: &str, clock_rate: u32, channels: u16, fmtp: &str, pt: u8) -> RTPCodecParameters {
    RTPCodecParameters {
        capability: RTPCodecCapability {
            mime_type: mime.to_owned(),
            clock_rate,
            channels,
            sdp_fmtp_line: fmtp.to_owned(),
            rtcp_feedback: vec![],
        },
        payload_type: pt,
        stats_id: String::new(),
    }
}

// The answerer prefers a codec the offerer does not support plus VP8; the
// answer keeps VP8 under the offerer's payload type and drops the other.
#[test]
fn test_rtp_transceiver_set_codec_preferences_payload_type() {
    let test_codec = codec("video/test_codec", 90000, 0, "", 50);

    let mut offer_engine = MediaEngine::default();
    offer_engine.register_default_codecs().unwrap();
    let offered_video_codecs = offer_engine.video_codecs.clone();

    let mut answer_engine = MediaEngine::default();
    answer_engine.register_default_codecs().unwrap();
    answer_engine.register_codec(test_codec.clone(), RTPCodecType::Video).unwrap();
    let answer_video_codecs = answer_engine.video_codecs.clone();

    let mut answer_transceiver = RTPTransceiver::new(
        RTPTransceiverDirection::Unspecified,
        RTPCodecType::Video,
        answer_video_codecs,
        answer_engine,
    );

    answer_transceiver
        .set_codec_preferences(vec![test_codec, codec(MIME_TYPE_VP8, 90000, 0, "", 51)])
        .unwrap();

    let negotiated = negotiate_codecs(&answer_transceiver.get_codecs(), &offered_video_codecs);
    let answer_sdp = rtpmap_lines(&negotiated);

    // VP8 with the payload type the offer assigned.
    assert!(answer_sdp.contains("a=rtpmap:96 VP8/90000"));

    // test_codec is ignored since the offerer does not support it.
    assert!(!answer_sdp.contains("test_codec"));
}

#[test]
fn test_rtpmap_line_rendering() {
    assert_eq!(rtpmap_line(&codec("video/VP8", 90000, 0, "", 96)), "a=rtpmap:96 VP8/90000");
    assert_eq!(
        rtpmap_line(&codec("audio/opus", 48000, 2, "", 111)),
        "a=rtpmap:111 opus/48000/2"
    );
    assert_eq!(
        rtpmap_lines(&vec![codec("video/VP8", 90000, 0, "", 96)]),
        "a=rtpmap:96 VP8/90000\r\n"
    );
}

#[test]
fn test_negotiate_codecs_keeps_local_order_and_remote_payload_types() {
    let local = vec![
        codec("video/VP9", 90000, 0, "profile-id=0", 120),
        codec("video/VP8", 90000, 0, "", 121),
    ];
    let remote = vec![
        codec("video/VP8", 90000, 0, "", 96),
        codec("video/VP9", 90000, 0, "profile-id=0", 98),
    ];

    let negotiated = negotiate_codecs(&local, &remote);
    assert_eq!(negotiated.len(), 2);
    assert_eq!(negotiated[0], remote[1]);
    assert_eq!(negotiated[1], remote[0]);
}

// A burst of signals schedules one event; the completion of that event
// re-runs once iff a signal arrived while it was in flight.
#[test]
fn test_negotiation_coalescing_burst() {
    // One signal: one run, no re-run.
    let mut c = NegotiationCoalescer::new();
    assert!(c.signal());
    assert!(!c.done());
    assert_eq!(c.state, NegotiationNeededState::Empty);

    // A burst of three signals: one run, then exactly one re-run.
    let mut c = NegotiationCoalescer::new();
    assert!(c.signal());
    assert!(!c.signal());
    assert!(!c.signal());
    assert_eq!(c.state, NegotiationNeededState::Queue);
    assert!(c.done());
    assert!(!c.done());
    assert_eq!(c.state, NegotiationNeededState::Empty);
}

#[test]
fn test_negotiation_needed_state_ordinals() {
    assert_eq!(NegotiationNeededState::default(), NegotiationNeededState::Empty);
    assert_eq!(NegotiationNeededState::from_u8(0), NegotiationNeededState::Empty);
    assert_eq!(NegotiationNeededState::from_u8(1), NegotiationNeededState::Run);
    assert_eq!(NegotiationNeededState::from_u8(2), NegotiationNeededState::Queue);
    assert_eq!(NegotiationNeededState::from_u8(3), NegotiationNeededState::Empty);
}
