use webrtc_core::error::Error;
use webrtc_core::fmtp::{fmtp_consist, lookup_param, parse_fmtp};
use webrtc_core::rtp_codec::{
    codec_parameters_fuzzy_search, CodecMatch, Payloader, RTPCodecCapability, RTPCodecParameters,
    RTPCodecType, RTPHeaderExtensionParameter, RTPParameters,
};
use webrtc_core::UNSPECIFIED_STR;

fn codec(mime: &str, clock_rate: u32, channels: u16, fmtp: &str, pt: u8) -> RTPCodecParameters {
    RTPCodecParameters {
        capability: RTPCodecCapability {
            mime_type: mime.to_owned(),
            clock_rate,
            channels,
            sdp_fmtp_line: fmtp.to_owned(),
            rtcp_feedback: vec![],
        },
        payload_type: pt,
        stats_id: String::new(),
    }
}

#[test]
fn test_rtp_codec_type_tokens() {
    assert_eq!(RTPCodecType::from("audio"), RTPCodecType::Audio);
    assert_eq!(RTPCodecType::from("video"), RTPCodecType::Video);
    assert_eq!(RTPCodecType::from("AUDIO"), RTPCodecType::Unspecified);
    assert_eq!(RTPCodecType::Audio.to_string(), "audio");
    assert_eq!(RTPCodecType::Video.to_string(), "video");
    assert_eq!(RTPCodecType::Unspecified.to_string(), UNSPECIFIED_STR);
    assert_eq!(RTPCodecType::from_u8(1), RTPCodecType::Audio);
    assert_eq!(RTPCodecType::from_u8(2), RTPCodecType::Video);
    assert_eq!(RTPCodecType::from_u8(3), RTPCodecType::Unspecified);
}

#[test]
fn test_parse_fmtp_pairs() {
    let params = parse_fmtp("minptime=10;useinbandfec=1");
    assert_eq!(params.len(), 2);
    assert_eq!(params[0].key, "minptime");
    assert_eq!(params[0].value, "10");
    assert_eq!(params[1].key, "useinbandfec");
    assert_eq!(params[1].value, "1");

    let params = parse_fmtp("KEY=Value");
    assert_eq!(params[0].key, "key");
    assert_eq!(params[0].value, "Value");

    let params = parse_fmtp("flag");
    assert_eq!(params[0].key, "flag");
    assert_eq!(params[0].value, "");

    // Later parameters overwrite earlier ones under the same key.
    let params = parse_fmtp("a=1;a=2");
    assert_eq!(lookup_param(&params, "a"), Some("2".to_owned()));

    // An empty line parses to one parameter with an empty key and value.
    let params = parse_fmtp("");
    assert_eq!(params.len(), 1);
    assert_eq!(params[0].key, "");
    assert_eq!(params[0].value, "");

    let params = parse_fmtp("apt=96");
    assert_eq!(lookup_param(&params, "apt"), Some("96".to_owned()));
    assert_eq!(lookup_param(&params, "missing"), None);
}

#[test]
fn test_fmtp_consistency() {
    let a = parse_fmtp("profile-level-id=42e01f;packetization-mode=1");
    let b = parse_fmtp("packetization-mode=1");
    assert!(fmtp_consist(&a, &b));
    assert!(fmtp_consist(&b, &a));

    let c = parse_fmtp("packetization-mode=0");
    assert!(!fmtp_consist(&a, &c));
}

// A needle whose every fmtp key is absent from the haystack entry is
// consistent with it: the match is exact.
#[test]
fn test_fuzzy_search_underspecified_haystack_is_exact() {
    let haystack = vec![codec("video/VP8", 90000, 0, "", 96)];
    let needle = codec("video/VP8", 90000, 0, "max-fs=1200", 100);

    let (matched, kind) = codec_parameters_fuzzy_search(&needle, &haystack);
    assert_eq!(kind, CodecMatch::Exact);
    assert_eq!(matched, haystack[0]);
}

// A conflicting value on a shared fmtp key blocks the exact pass; the
// partial pass still matches the mime type.
#[test]
fn test_fuzzy_search_conflicting_fmtp_is_partial() {
    let haystack = vec![
        codec("video/H264", 90000, 0, "profile-level-id=42e01f", 102),
        codec("video/VP8", 90000, 0, "", 96),
    ];
    let needle = codec("video/H264", 90000, 0, "profile-level-id=640028", 125);

    let (matched, kind) = codec_parameters_fuzzy_search(&needle, &haystack);
    assert_eq!(kind, CodecMatch::Partial);
    assert_eq!(matched, haystack[0]);
}

#[test]
fn test_fuzzy_search_mime_type_is_case_insensitive() {
    let haystack = vec![codec("video/vp8", 90000, 0, "", 96)];
    let needle = codec("VIDEO/VP8", 90000, 0, "", 100);

    let (matched, kind) = codec_parameters_fuzzy_search(&needle, &haystack);
    assert_eq!(kind, CodecMatch::Exact);
    assert_eq!(matched, haystack[0]);
}

#[test]
fn test_fuzzy_search_no_match_yields_default() {
    let haystack = vec![codec("video/VP8", 90000, 0, "", 96)];
    let needle = codec("audio/opus", 48000, 2, "", 111);

    let (matched, kind) = codec_parameters_fuzzy_search(&needle, &haystack);
    assert_eq!(kind, CodecMatch::Unmatched);
    assert_eq!(matched, RTPCodecParameters::default());
    assert_eq!(CodecMatch::default(), CodecMatch::Unmatched);
}

#[test]
fn test_fuzzy_search_empty_haystack_yields_default() {
    let haystack: Vec<RTPCodecParameters> = vec![];
    let needle = codec("video/VP8", 90000, 0, "", 96);
    let (matched, kind) = codec_parameters_fuzzy_search(&needle, &haystack);
    assert_eq!(kind, CodecMatch::Unmatched);
    assert_eq!(matched, RTPCodecParameters::default());
}

#[test]
fn test_fuzzy_search_first_exact_match_wins() {
    let haystack = vec![
        codec("video/VP9", 90000, 0, "profile-id=0", 98),
        codec("video/VP9", 90000, 0, "profile-id=0", 100),
    ];
    let needle = codec("video/VP9", 90000, 0, "profile-id=0", 120);

    let (matched, kind) = codec_parameters_fuzzy_search(&needle, &haystack);
    assert_eq!(kind, CodecMatch::Exact);
    assert_eq!(matched.payload_type, 98);
}

#[test]
fn test_payloader_for_codec() {
    assert_eq!(codec("video/H264", 90000, 0, "", 102).capability.payloader_for_codec(), Ok(Payloader::H264));
    assert_eq!(codec("video/vp8", 90000, 0, "", 96).capability.payloader_for_codec(), Ok(Payloader::Vp8));
    assert_eq!(codec("VIDEO/VP9", 90000, 0, "", 98).capability.payloader_for_codec(), Ok(Payloader::Vp9));
    assert_eq!(codec("audio/OPUS", 48000, 2, "", 111).capability.payloader_for_codec(), Ok(Payloader::Opus));
    assert_eq!(codec("audio/G722", 8000, 0, "", 9).capability.payloader_for_codec(), Ok(Payloader::G7xx));
    assert_eq!(codec("audio/PCMU", 8000, 0, "", 0).capability.payloader_for_codec(), Ok(Payloader::G7xx));
    assert_eq!(codec("audio/pcma", 8000, 0, "", 8).capability.payloader_for_codec(), Ok(Payloader::G7xx));
    assert_eq!(
        codec("video/unknown", 90000, 0, "", 96).capability.payloader_for_codec(),
        Err(Error::ErrNoPayloaderForCodec)
    );
}

#[test]
fn test_rtp_parameters_clone_is_structural() {
    let params = RTPParameters {
        header_extensions: vec![RTPHeaderExtensionParameter {
            uri: "urn:ietf:params:rtp-hdrext:sdes:mid".to_owned(),
            id: 1,
        }],
        codecs: vec![codec("video/VP8", 90000, 0, "", 96)],
    };
    let copied = params.clone();
    assert_eq!(copied.header_extensions, params.header_extensions);
    assert_eq!(copied.codecs, params.codecs);

    let empty = RTPParameters::default();
    assert_eq!(empty.header_extensions.len(), 0);
    assert_eq!(empty.codecs.len(), 0);
}
