use webrtc_core::error::Error;
use webrtc_core::media_engine::{MediaEngine, MIME_TYPE_OPUS, MIME_TYPE_VP8, MIME_TYPE_VP9};
use webrtc_core::rtp_codec::{RTPCodecCapability, RTPCodecParameters, RTPCodecType};
use webrtc_core::rtp_transceiver::{RTPTransceiver, RTPTransceiverDirection};

fn codec(mime: &str, clock_rate: u32, channels: u16, fmtp: &str, pt: u8) -> RTPCodecParameters {
    RTPCodecParameters {
        capability: RTPCodecCapability {
            mime_type: mime.to_owned(),
            clock_rate,
            channels,
            sdp_fmtp_line: fmtp.to_owned(),
            rtcp_feedback: vec![],
        },
        payload_type: pt,
        stats_id: String::new(),
    }
}

fn video_transceiver() -> RTPTransceiver {
    let mut m = MediaEngine::default();
    m.register_default_codecs().unwrap();
    let media_video_codecs = m.video_codecs.clone();
    RTPTransceiver::new(
        RTPTransceiverDirection::Unspecified,
        RTPCodecType::Video,
        media_video_codecs,
        m,
    )
}

#[test]
fn test_rtp_transceiver_set_codec_preferences() {
    let mut m = MediaEngine::default();
    m.register_default_codecs().unwrap();
    let media_video_codecs = m.video_codecs.clone();

    let mut tr = RTPTransceiver::new(
        RTPTransceiverDirection::Unspecified,
        RTPCodecType::Video,
        media_video_codecs.clone(),
        m,
    );

    assert_eq!(&media_video_codecs, &tr.get_codecs());

    let fail_test_cases = vec![
        vec![codec(MIME_TYPE_OPUS, 48000, 2, "minptime=10;useinbandfec=1", 111)],
        vec![
            codec(MIME_TYPE_VP8, 90000, 0, "", 96),
            codec(MIME_TYPE_OPUS, 48000, 2, "minptime=10;useinbandfec=1", 111),
        ],
    ];

    for test_case in fail_test_cases {
        if let Err(err) = tr.set_codec_preferences(test_case) {
            assert!(Error::ErrRTPTransceiverCodecUnsupported.equal(&err));
        } else {
            assert!(false);
        }
    }

    let success_test_cases = vec![
        vec![codec(MIME_TYPE_VP8, 90000, 0, "", 96)],
        vec![
            codec(MIME_TYPE_VP8, 90000, 0, "", 96),
            codec("video/rtx", 90000, 0, "apt=96", 97),
            codec(MIME_TYPE_VP9, 90000, 0, "profile-id=0", 98),
            codec("video/rtx", 90000, 0, "apt=98", 99),
        ],
    ];

    for test_case in success_test_cases {
        tr.set_codec_preferences(test_case).unwrap();
    }

    tr.set_codec_preferences(vec![]).unwrap();
    assert_ne!(0, tr.get_codecs().len());
}

// An accepted preference list is returned by get_codecs exactly as given,
// order and payload types included.
#[test]
fn test_accepted_preferences_returned_verbatim() {
    let mut tr = video_transceiver();
    let prefs = vec![
        codec(MIME_TYPE_VP8, 90000, 0, "", 96),
        codec("video/rtx", 90000, 0, "apt=96", 97),
        codec(MIME_TYPE_VP9, 90000, 0, "profile-id=0", 98),
        codec("video/rtx", 90000, 0, "apt=98", 99),
    ];
    tr.set_codec_preferences(prefs.clone()).unwrap();
    assert_eq!(prefs, tr.get_codecs());
}

// A failing call leaves the previously accepted preferences untouched.
#[test]
fn test_failed_preferences_leave_codecs_unchanged() {
    let mut tr = video_transceiver();
    let prefs = vec![codec(MIME_TYPE_VP8, 90000, 0, "", 96)];
    tr.set_codec_preferences(prefs.clone()).unwrap();

    let before = tr.get_codecs();
    let err = tr
        .set_codec_preferences(vec![codec(MIME_TYPE_OPUS, 48000, 2, "", 111)])
        .unwrap_err();
    assert_eq!(err, Error::ErrRTPTransceiverCodecUnsupported);
    assert_eq!(before, tr.get_codecs());
    assert_eq!(prefs, tr.get_codecs());
}

// An empty list resets the preferences to the engine's list for the kind.
#[test]
fn test_empty_preferences_reset_to_engine_order() {
    let mut tr = video_transceiver();
    let engine_codecs = tr.media_engine.video_codecs.clone();
    tr.set_codec_preferences(vec![codec(MIME_TYPE_VP8, 90000, 0, "", 96)]).unwrap();
    tr.set_codec_preferences(vec![]).unwrap();
    assert_eq!(engine_codecs, tr.get_codecs());
    assert!(tr.get_codecs().len() > 0);
}

// An RTX entry whose apt value names no payload type in the list is refused.
#[test]
fn test_rtx_without_referenced_payload_type_is_unsupported() {
    let mut tr = video_transceiver();
    let err = tr
        .set_codec_preferences(vec![
            codec(MIME_TYPE_VP8, 90000, 0, "", 96),
            codec("video/rtx", 90000, 0, "apt=111", 97),
        ])
        .unwrap_err();
    assert_eq!(err, Error::ErrRTPTransceiverCodecUnsupported);

    let err = tr
        .set_codec_preferences(vec![
            codec(MIME_TYPE_VP8, 90000, 0, "", 96),
            codec("video/rtx", 90000, 0, "", 97),
        ])
        .unwrap_err();
    assert_eq!(err, Error::ErrRTPTransceiverCodecUnsupported);
}

#[test]
fn test_register_codec_unspecified_kind_fails() {
    let mut m = MediaEngine::default();
    let err = m
        .register_codec(codec(MIME_TYPE_VP8, 90000, 0, "", 96), RTPCodecType::Unspecified)
        .unwrap_err();
    assert_eq!(err, Error::ErrUnknownType);
    assert_eq!(m.video_codecs.len(), 0);
    assert_eq!(m.audio_codecs.len(), 0);
}

#[test]
fn test_transceiver_direction_tokens() {
    assert_eq!(RTPTransceiverDirection::from("sendrecv"), RTPTransceiverDirection::Sendrecv);
    assert_eq!(RTPTransceiverDirection::from("sendonly"), RTPTransceiverDirection::Sendonly);
    assert_eq!(RTPTransceiverDirection::from("recvonly"), RTPTransceiverDirection::Recvonly);
    assert_eq!(RTPTransceiverDirection::from("inactive"), RTPTransceiverDirection::Inactive);
    assert_eq!(RTPTransceiverDirection::from("SENDRECV"), RTPTransceiverDirection::Unspecified);
    assert_eq!(RTPTransceiverDirection::Sendrecv.to_string(), "sendrecv");
}
