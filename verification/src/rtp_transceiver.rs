//! The RTP transceiver: a direction, a media kind, the current codec
//! preference list, and the MediaEngine capabilities it negotiates against.
//!
//! `set_codec_preferences` is atomic: either every entry is supported and
//! the new list is installed in full, or the call fails with
//! `ErrRTPTransceiverCodecUnsupported` and the previous list is untouched.

use vstd::prelude::*;
use crate::error::Error;
use crate::fmtp::{lookup_param, parse_fmtp, spec_lookup, spec_parse_fmtp};
use crate::media_engine::MediaEngine;
use crate::rtp_codec::{
    clone_codecs, codec_params_seq_view, spec_mime_match, RTPCodecParameters,
    RTPCodecParametersView, RTPCodecType,
};
use crate::strutil::{parse_u8, spec_parse_u8, spec_upper, str_eq_str, str_eq_ignore_case, str_to_chars};

verus! {

/// RTPTransceiverDirection indicates the direction of the RTPTransceiver.
#[derive(Debug, Copy, Clone, PartialEq, Eq, Structural)]
pub enum RTPTransceiverDirection {
    Unspecified,
    /// The transceiver both sends and receives.
    Sendrecv,
    /// The transceiver only sends.
    Sendonly,
    /// The transceiver only receives.
    Recvonly,
    /// The transceiver neither sends nor receives.
    Inactive,
}

impl Default for RTPTransceiverDirection {
    fn default() -> (r: Self)
        ensures
            r == RTPTransceiverDirection::Unspecified,
    {
        RTPTransceiverDirection::Unspecified
    }
}

impl RTPTransceiverDirection {
    /// Canonical rendering of each variant; `Unspecified` renders as the
    /// process-wide sentinel token.
    pub open spec fn spec_to_str(self) -> Seq<char> {
        match self {
            RTPTransceiverDirection::Sendrecv => "sendrecv"@,
            RTPTransceiverDirection::Sendonly => "sendonly"@,
            RTPTransceiverDirection::Recvonly => "recvonly"@,
            RTPTransceiverDirection::Inactive => "inactive"@,
            RTPTransceiverDirection::Unspecified => "Unspecified"@,
        }
    }

    /// The variant whose canonical token is `s` exactly; any other string
    /// maps to `Unspecified`.
    pub open spec fn spec_from_str(s: Seq<char>) -> RTPTransceiverDirection {
        if s == "sendrecv"@ {
            RTPTransceiverDirection::Sendrecv
        } else if s == "sendonly"@ {
            RTPTransceiverDirection::Sendonly
        } else if s == "recvonly"@ {
            RTPTransceiverDirection::Recvonly
        } else if s == "inactive"@ {
            RTPTransceiverDirection::Inactive
        } else {
            RTPTransceiverDirection::Unspecified
        }
    }

    /// Parses the canonical lowercase token; any other input yields
    /// `Unspecified`.
    pub fn from(raw: &str) -> (r: RTPTransceiverDirection)
        ensures
            r == RTPTransceiverDirection::spec_from_str(raw@),
    {
        if str_eq_str(raw, "sendrecv") {
            RTPTransceiverDirection::Sendrecv
        } else if str_eq_str(raw, "sendonly") {
            RTPTransceiverDirection::Sendonly
        } else if str_eq_str(raw, "recvonly") {
            RTPTransceiverDirection::Recvonly
        } else if str_eq_str(raw, "inactive") {
            RTPTransceiverDirection::Inactive
        } else {
            RTPTransceiverDirection::Unspecified
        }
    }

    /// Renders the canonical token for this direction.
    pub fn to_string(&self) -> (r: String)
        ensures
            r@ == self.spec_to_str(),
    {
        match *self {
            RTPTransceiverDirection::Sendrecv => "sendrecv".to_owned(),
            RTPTransceiverDirection::Sendonly => "sendonly".to_owned(),
            RTPTransceiverDirection::Recvonly => "recvonly".to_owned(),
            RTPTransceiverDirection::Inactive => "inactive".to_owned(),
            RTPTransceiverDirection::Unspecified => crate::UNSPECIFIED_STR.to_owned(),
        }
    }
}

/// Parsing the canonical rendering of any variant gives the variant back.
pub proof fn lemma_rtp_transceiver_direction_string_round_trip(v: RTPTransceiverDirection)
    ensures
        RTPTransceiverDirection::spec_from_str(v.spec_to_str()) == v,
{
    reveal_strlit("sendrecv");
    reveal_strlit("sendonly");
    reveal_strlit("recvonly");
    reveal_strlit("inactive");
    reveal_strlit("Unspecified");
    assert("sendrecv"@.len() == 8);
    assert("sendonly"@.len() == 8);
    assert("recvonly"@.len() == 8);
    assert("inactive"@.len() == 8);
    assert("Unspecified"@.len() == 11);
    assert("sendrecv"@[4] == 'r' && "sendonly"@[4] == 'o');
    assert("sendrecv"@[0] == 's' && "recvonly"@[0] == 'r' && "inactive"@[0] == 'i');
}

/// Any token outside the canonical set parses to `Unspecified`.
pub proof fn lemma_rtp_transceiver_direction_unknown_token(s: Seq<char>)
    requires
        s != "sendrecv"@,
        s != "sendonly"@,
        s != "recvonly"@,
        s != "inactive"@,
    ensures
        RTPTransceiverDirection::spec_from_str(s) == RTPTransceiverDirection::Unspecified,
{
}

/// Whether the preference entry at index `i` is supported: an RTX entry is
/// supported when its `apt` fmtp parameter names a payload type carried by
/// another entry of the same list; any other entry is supported when the
/// engine has a registered codec of this kind with the same mime type
/// (compared case-insensitively).
pub open spec fn spec_entry_supported(
    prefs: Seq<RTPCodecParametersView>,
    i: int,
    engine: Seq<RTPCodecParametersView>,
) -> bool {
    let p = prefs[i];
    if p.capability.mime_type == "video/rtx"@ {
        match spec_lookup(spec_parse_fmtp(p.capability.sdp_fmtp_line), "apt"@) {
            Some(v) => match spec_parse_u8(v) {
                Some(pt) => exists|j: int|
                    0 <= j < prefs.len() && j != i && (#[trigger] prefs[j]).payload_type == pt,
                None => false,
            },
            None => false,
        }
    } else {
        exists|j: int|
            0 <= j < engine.len() && spec_mime_match(p.capability, (#[trigger] engine[j]).capability)
    }
}

/// Every entry of the preference list is supported.
pub open spec fn spec_all_supported(
    prefs: Seq<RTPCodecParametersView>,
    engine: Seq<RTPCodecParametersView>,
) -> bool {
    forall|i: int| 0 <= i < prefs.len() ==> #[trigger] spec_entry_supported(prefs, i, engine)
}

/// Whether `list` holds a codec whose mime type equals `mime`
/// case-insensitively.
fn codecs_have_mime(list: &Vec<RTPCodecParameters>, mime: &str) -> (r: bool)
    ensures
        r == exists|k: int|
            0 <= k < list@.len() && spec_upper(
                (#[trigger] codec_params_seq_view(list@)[k]).capability.mime_type,
            ) == spec_upper(mime@),
{
    let ghost lv = codec_params_seq_view(list@);
    let mut j: usize = 0;
    while j < list.len()
        invariant
            0 <= j <= list@.len(),
            lv == codec_params_seq_view(list@),
            forall|k: int|
                0 <= k < j ==> spec_upper((#[trigger] lv[k]).capability.mime_type) != spec_upper(
                    mime@,
                ),
        decreases list@.len() - j,
    {
        if str_eq_ignore_case(list[j].capability.mime_type.as_str(), mime) {
            proof {
                assert(lv[j as int] == list@[j as int]@);
            }
            return true;
        }
        proof {
            assert(lv[j as int] == list@[j as int]@);
        }
        j += 1;
    }
    false
}

/// Whether some entry of `codecs` other than entry `skip` carries payload
/// type `pt`.
fn references_payload_type(codecs: &Vec<RTPCodecParameters>, skip: usize, pt: u8) -> (r: bool)
    ensures
        r == exists|j: int|
            0 <= j < codecs@.len() && j != skip && (#[trigger] codec_params_seq_view(codecs@)[j]).payload_type == pt,
{
    let ghost prefs = codec_params_seq_view(codecs@);
    let mut j: usize = 0;
    while j < codecs.len()
        invariant
            0 <= j <= codecs@.len(),
            prefs == codec_params_seq_view(codecs@),
            forall|k: int| 0 <= k < j && k != skip ==> (#[trigger] prefs[k]).payload_type != pt,
        decreases codecs@.len() - j,
    {
        if j != skip && codecs[j].payload_type == pt {
            proof {
                assert(prefs[j as int] == codecs@[j as int]@);
            }
            return true;
        }
        j += 1;
    }
    false
}

/// RTPTransceiver represents a combination of an RTPSender and an
/// RTPReceiver that share a common media kind.
#[derive(Debug)]
pub struct RTPTransceiver {
    pub direction: RTPTransceiverDirection,
    pub kind: RTPCodecType,
    pub codecs: Vec<RTPCodecParameters>,
    pub media_engine: MediaEngine,
}

impl RTPTransceiver {
    /// The engine's registered capability list for this transceiver's kind.
    pub open spec fn spec_engine_codecs(self) -> Seq<RTPCodecParametersView> {
        if self.kind == RTPCodecType::Audio {
            codec_params_seq_view(self.media_engine.audio_codecs@)
        } else if self.kind == RTPCodecType::Video {
            codec_params_seq_view(self.media_engine.video_codecs@)
        } else {
            Seq::<RTPCodecParametersView>::empty()
        }
    }

    /// Builds a transceiver with an initial codec list (typically the
    /// engine's kind-matching list) and ownership of the engine.
    pub fn new(
        direction: RTPTransceiverDirection,
        kind: RTPCodecType,
        codecs: Vec<RTPCodecParameters>,
        media_engine: MediaEngine,
    ) -> (r: RTPTransceiver)
        ensures
            r.direction == direction,
            r.kind == kind,
            r.codecs == codecs,
            r.media_engine == media_engine,
    {
        RTPTransceiver { direction, kind, codecs, media_engine }
    }

    /// The current preference list: the initial codec list until
    /// `set_codec_preferences` first succeeds, then the last accepted list.
    pub fn get_codecs(&self) -> (r: Vec<RTPCodecParameters>)
        ensures
            codec_params_seq_view(r@) == codec_params_seq_view(self.codecs@),
    {
        clone_codecs(&self.codecs)
    }

    /// Installs a codec preference list. Every entry must be supported by
    /// the MediaEngine (RTX entries instead by an `apt` reference into the
    /// same list); otherwise the call fails with
    /// `ErrRTPTransceiverCodecUnsupported` and changes nothing. An empty
    /// list resets the preferences to the engine's list for this kind.
    pub fn set_codec_preferences(&mut self, codecs: Vec<RTPCodecParameters>) -> (r: Result<
        (),
        Error,
    >)
        ensures
            ({
                let prefs = codec_params_seq_view(codecs@);
                let engine = old(self).spec_engine_codecs();
                &&& final(self).direction == old(self).direction
                &&& final(self).kind == old(self).kind
                &&& final(self).media_engine == old(self).media_engine
                &&& if spec_all_supported(prefs, engine) {
                    &&& r is Ok
                    &&& codecs@.len() > 0 ==> codec_params_seq_view(final(self).codecs@) == prefs
                    &&& codecs@.len() == 0 ==> codec_params_seq_view(final(self).codecs@) == engine
                    &&& codecs@.len() == 0 && engine.len() > 0 ==> final(self).codecs@.len() > 0
                } else {
                    &&& r == Err::<(), Error>(Error::ErrRTPTransceiverCodecUnsupported)
                    &&& final(self).codecs == old(self).codecs
                }
            }),
    {
        let ghost prefs = codec_params_seq_view(codecs@);
        let ghost engine = self.spec_engine_codecs();
        let mut i: usize = 0;
        while i < codecs.len()
            invariant
                0 <= i <= codecs@.len(),
                prefs == codec_params_seq_view(codecs@),
                engine == self.spec_engine_codecs(),
                forall|k: int| 0 <= k < i ==> #[trigger] spec_entry_supported(prefs, k, engine),
            decreases codecs@.len() - i,
        {
            if !self.entry_supported(&codecs, i) {
                return Err(Error::ErrRTPTransceiverCodecUnsupported);
            }
            i += 1;
        }
        if codecs.len() == 0 {
            self.codecs = self.media_engine.get_codecs_by_kind(self.kind);
            proof {
                if self.kind == RTPCodecType::Unspecified {
                    assert(codec_params_seq_view(self.codecs@) =~= engine);
                }
            }
        } else {
            self.codecs = codecs;
        }
        Ok(())
    }

    /// Whether preference entry `i` of `codecs` is supported, as
    /// `spec_entry_supported` states.
    fn entry_supported(&self, codecs: &Vec<RTPCodecParameters>, i: usize) -> (r: bool)
        requires
            i < codecs@.len(),
        ensures
            r == spec_entry_supported(
                codec_params_seq_view(codecs@),
                i as int,
                self.spec_engine_codecs(),
            ),
    {
        let ghost prefs = codec_params_seq_view(codecs@);
        let ghost engine = self.spec_engine_codecs();
        let p = &codecs[i];
        proof {
            assert(prefs[i as int] == codecs@[i as int]@);
        }
        if str_eq_str(p.capability.mime_type.as_str(), "video/rtx") {
            let params = parse_fmtp(p.capability.sdp_fmtp_line.as_str());
            match lookup_param(&params, "apt") {
                Some(v) => {
                    let digits = str_to_chars(v.as_str());
                    match parse_u8(&digits) {
                        Some(pt) => references_payload_type(codecs, i, pt),
                        None => false,
                    }
                },
                None => false,
            }
        } else {
            self.engine_has_mime(p.capability.mime_type.as_str())
        }
    }

    /// Whether the engine's capability list for this kind holds a codec
    /// whose mime type equals `mime` case-insensitively.
    fn engine_has_mime(&self, mime: &str) -> (r: bool)
        ensures
            r == exists|k: int|
                0 <= k < self.spec_engine_codecs().len() && spec_upper(
                    (#[trigger] self.spec_engine_codecs()[k]).capability.mime_type,
                ) == spec_upper(mime@),
    {
        let ghost engine = self.spec_engine_codecs();
        let r = match self.kind {
            RTPCodecType::Audio => codecs_have_mime(&self.media_engine.audio_codecs, mime),
            RTPCodecType::Video => codecs_have_mime(&self.media_engine.video_codecs, mime),
            RTPCodecType::Unspecified => false,
        };
        proof {
            let lv = if self.kind == RTPCodecType::Audio {
                codec_params_seq_view(self.media_engine.audio_codecs@)
            } else if self.kind == RTPCodecType::Video {
                codec_params_seq_view(self.media_engine.video_codecs@)
            } else {
                Seq::<RTPCodecParametersView>::empty()
            };
            assert(engine == lv);
            if r {
                let k = choose|k: int|
                    0 <= k < lv.len() && spec_upper(
                        (#[trigger] lv[k]).capability.mime_type,
                    ) == spec_upper(mime@);
                assert(0 <= k < engine.len() && spec_upper(engine[k].capability.mime_type)
                    == spec_upper(mime@));
            } else {
                assert forall|k: int|
                    0 <= k < engine.len() implies spec_upper(
                    (#[trigger] engine[k]).capability.mime_type,
                ) != spec_upper(mime@) by {
                    assert(engine[k] == lv[k]);
                }
            }
        }
        r
    }

}

} // verus!
