//! The MediaEngine codec registry: the ordered audio and video capability
//! lists that drive transceiver negotiation, plus the standard default
//! codec set.

use vstd::prelude::*;
use crate::error::Error;
use crate::rtp_codec::{
    clone_codecs, codec_params_seq_view, RTCPFeedbackView, RTPCodecCapability,
    RTPCodecCapabilityView, RTPCodecParameters, RTPCodecParametersView, RTPCodecType,
};

verus! {

pub const MIME_TYPE_H264: &'static str = "video/H264";

pub const MIME_TYPE_VP8: &'static str = "video/VP8";

pub const MIME_TYPE_VP9: &'static str = "video/VP9";

pub const MIME_TYPE_OPUS: &'static str = "audio/opus";

pub const MIME_TYPE_G722: &'static str = "audio/G722";

pub const MIME_TYPE_PCMU: &'static str = "audio/PCMU";

pub const MIME_TYPE_PCMA: &'static str = "audio/PCMA";

/// A MediaEngine defines the codecs supported by a PeerConnection. It holds
/// one ordered capability list per media kind; registration happens before
/// the engine is handed (by value) to the connection layer.
#[derive(Debug)]
pub struct MediaEngine {
    pub audio_codecs: Vec<RTPCodecParameters>,
    pub video_codecs: Vec<RTPCodecParameters>,
}

impl Default for MediaEngine {
    fn default() -> (r: Self)
        ensures
            r.audio_codecs@.len() == 0,
            r.video_codecs@.len() == 0,
    {
        MediaEngine { audio_codecs: Vec::new(), video_codecs: Vec::new() }
    }
}

/// One codec parameter entry with no feedback descriptors and an empty
/// stats id.
pub open spec fn spec_codec_entry(
    mime: Seq<char>,
    clock_rate: u32,
    channels: u16,
    fmtp: Seq<char>,
    payload_type: u8,
) -> RTPCodecParametersView {
    RTPCodecParametersView {
        capability: RTPCodecCapabilityView {
            mime_type: mime,
            clock_rate: clock_rate,
            channels: channels,
            sdp_fmtp_line: fmtp,
            rtcp_feedback: Seq::<RTCPFeedbackView>::empty(),
        },
        payload_type: payload_type,
        stats_id: Seq::<char>::empty(),
    }
}

/// The standard default audio codec set, in registration order.
pub open spec fn spec_default_audio_codecs() -> Seq<RTPCodecParametersView> {
    seq![
        spec_codec_entry("audio/opus"@, 48000, 2, "minptime=10;useinbandfec=1"@, 111),
        spec_codec_entry("audio/G722"@, 8000, 0, ""@, 9),
        spec_codec_entry("audio/PCMU"@, 8000, 0, ""@, 0),
        spec_codec_entry("audio/PCMA"@, 8000, 0, ""@, 8),
    ]
}

/// The standard default video codec set, in registration order.
pub open spec fn spec_default_video_codecs() -> Seq<RTPCodecParametersView> {
    seq![
        spec_codec_entry("video/VP8"@, 90000, 0, ""@, 96),
        spec_codec_entry("video/VP9"@, 90000, 0, "profile-id=0"@, 98),
        spec_codec_entry(
            "video/H264"@,
            90000,
            0,
            "level-asymmetry-allowed=1;packetization-mode=1;profile-level-id=42001f"@,
            102,
        ),
    ]
}

fn codec_entry(mime: &str, clock_rate: u32, channels: u16, fmtp: &str, payload_type: u8) -> (r:
    RTPCodecParameters)
    ensures
        r@ == spec_codec_entry(mime@, clock_rate, channels, fmtp@, payload_type),
{
    let r = RTPCodecParameters {
        capability: RTPCodecCapability {
            mime_type: mime.to_owned(),
            clock_rate: clock_rate,
            channels: channels,
            sdp_fmtp_line: fmtp.to_owned(),
            rtcp_feedback: Vec::new(),
        },
        payload_type: payload_type,
        stats_id: String::new(),
    };
    proof {
        assert(r@ =~~= spec_codec_entry(mime@, clock_rate, channels, fmtp@, payload_type));
    }
    r
}

impl MediaEngine {
    /// Appends `codec` to the capability list of its media kind; a kind of
    /// `Unspecified` fails with `ErrUnknownType` and changes nothing.
    pub fn register_codec(&mut self, codec: RTPCodecParameters, typ: RTPCodecType) -> (r: Result<
        (),
        Error,
    >)
        ensures
            typ == RTPCodecType::Audio ==> r is Ok
                && final(self).audio_codecs@ == old(self).audio_codecs@.push(codec)
                && final(self).video_codecs@ == old(self).video_codecs@,
            typ == RTPCodecType::Video ==> r is Ok
                && final(self).video_codecs@ == old(self).video_codecs@.push(codec)
                && final(self).audio_codecs@ == old(self).audio_codecs@,
            typ == RTPCodecType::Unspecified ==> r == Err::<(), Error>(Error::ErrUnknownType)
                && final(self).audio_codecs@ == old(self).audio_codecs@
                && final(self).video_codecs@ == old(self).video_codecs@,
    {
        match typ {
            RTPCodecType::Audio => {
                self.audio_codecs.push(codec);
                Ok(())
            },
            RTPCodecType::Video => {
                self.video_codecs.push(codec);
                Ok(())
            },
            RTPCodecType::Unspecified => Err(Error::ErrUnknownType),
        }
    }

    /// Registers the standard default codec set for both media kinds, in
    /// order, after whatever is already registered.
    pub fn register_default_codecs(&mut self) -> (r: Result<(), Error>)
        ensures
            r is Ok,
            codec_params_seq_view(final(self).audio_codecs@)
                == codec_params_seq_view(old(self).audio_codecs@) + spec_default_audio_codecs(),
            codec_params_seq_view(final(self).video_codecs@)
                == codec_params_seq_view(old(self).video_codecs@) + spec_default_video_codecs(),
    {
        let opus = codec_entry(MIME_TYPE_OPUS, 48000, 2, "minptime=10;useinbandfec=1", 111);
        let g722 = codec_entry(MIME_TYPE_G722, 8000, 0, "", 9);
        let pcmu = codec_entry(MIME_TYPE_PCMU, 8000, 0, "", 0);
        let pcma = codec_entry(MIME_TYPE_PCMA, 8000, 0, "", 8);
        self.audio_codecs.push(opus);
        self.audio_codecs.push(g722);
        self.audio_codecs.push(pcmu);
        self.audio_codecs.push(pcma);

        let vp8 = codec_entry(MIME_TYPE_VP8, 90000, 0, "", 96);
        let vp9 = codec_entry(MIME_TYPE_VP9, 90000, 0, "profile-id=0", 98);
        let h264 = codec_entry(
            MIME_TYPE_H264,
            90000,
            0,
            "level-asymmetry-allowed=1;packetization-mode=1;profile-level-id=42001f",
            102,
        );
        self.video_codecs.push(vp8);
        self.video_codecs.push(vp9);
        self.video_codecs.push(h264);

        proof {
            assert(codec_params_seq_view(self.audio_codecs@) =~~= codec_params_seq_view(
                old(self).audio_codecs@,
            ) + spec_default_audio_codecs());
            assert(codec_params_seq_view(self.video_codecs@) =~~= codec_params_seq_view(
                old(self).video_codecs@,
            ) + spec_default_video_codecs());
        }
        Ok(())
    }

    /// The registered capability list for one media kind, copied out; an
    /// `Unspecified` kind has no list and yields nothing.
    pub fn get_codecs_by_kind(&self, typ: RTPCodecType) -> (r: Vec<RTPCodecParameters>)
        ensures
            typ == RTPCodecType::Audio ==> codec_params_seq_view(r@) == codec_params_seq_view(
                self.audio_codecs@,
            ),
            typ == RTPCodecType::Video ==> codec_params_seq_view(r@) == codec_params_seq_view(
                self.video_codecs@,
            ),
            typ == RTPCodecType::Unspecified ==> r@.len() == 0,
    {
        match typ {
            RTPCodecType::Audio => clone_codecs(&self.audio_codecs),
            RTPCodecType::Video => clone_codecs(&self.video_codecs),
            RTPCodecType::Unspecified => Vec::new(),
        }
    }
}

} // verus!
