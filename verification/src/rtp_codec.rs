//! RTP codec model: the codec type enumeration, codec capabilities and
//! negotiated parameters, payloader dispatch by mime type, and the fuzzy
//! matcher that reconciles a codec against an ordered haystack.

use vstd::prelude::*;
use crate::error::Error;
use crate::fmtp::{fmtp_consist, parse_fmtp, spec_fmtp_consistent};
use crate::strutil::{spec_upper, str_eq_str, str_eq_ignore_case};

verus! {

/// PayloadType identifies which negotiated codec an RTP packet uses.
pub type PayloadType = u8;

/// RTPCodecType determines the type of a codec.
#[derive(Debug, Copy, Clone, PartialEq, Eq, Structural)]
pub enum RTPCodecType {
    Unspecified,
    /// An audio codec.
    Audio,
    /// A video codec.
    Video,
}

impl Default for RTPCodecType {
    fn default() -> (r: Self)
        ensures
            r == RTPCodecType::Unspecified,
    {
        RTPCodecType::Unspecified
    }
}

impl RTPCodecType {
    /// Canonical rendering of each variant; `Unspecified` renders as the
    /// process-wide sentinel token.
    pub open spec fn spec_to_str(self) -> Seq<char> {
        match self {
            RTPCodecType::Audio => "audio"@,
            RTPCodecType::Video => "video"@,
            RTPCodecType::Unspecified => "Unspecified"@,
        }
    }

    /// The variant whose canonical token is `s` exactly; any other string
    /// maps to `Unspecified`.
    pub open spec fn spec_from_str(s: Seq<char>) -> RTPCodecType {
        if s == "audio"@ {
            RTPCodecType::Audio
        } else if s == "video"@ {
            RTPCodecType::Video
        } else {
            RTPCodecType::Unspecified
        }
    }

    /// The variant with ordinal `v`; any other value maps to `Unspecified`.
    pub open spec fn spec_from_u8(v: u8) -> RTPCodecType {
        if v == 1 {
            RTPCodecType::Audio
        } else if v == 2 {
            RTPCodecType::Video
        } else {
            RTPCodecType::Unspecified
        }
    }

    /// Stable wire ordinal of each variant.
    pub open spec fn spec_to_u8(self) -> u8 {
        match self {
            RTPCodecType::Unspecified => 0,
            RTPCodecType::Audio => 1,
            RTPCodecType::Video => 2,
        }
    }

    /// Parses the canonical lowercase token; any other input yields
    /// `Unspecified`.
    pub fn from(raw: &str) -> (r: RTPCodecType)
        ensures
            r == RTPCodecType::spec_from_str(raw@),
    {
        if str_eq_str(raw, "audio") {
            RTPCodecType::Audio
        } else if str_eq_str(raw, "video") {
            RTPCodecType::Video
        } else {
            RTPCodecType::Unspecified
        }
    }

    /// Parses the wire ordinal; any other value yields `Unspecified`.
    pub fn from_u8(v: u8) -> (r: RTPCodecType)
        ensures
            r == RTPCodecType::spec_from_u8(v),
    {
        match v {
            1 => RTPCodecType::Audio,
            2 => RTPCodecType::Video,
            _ => RTPCodecType::Unspecified,
        }
    }

    /// The stable wire ordinal of this codec type.
    pub fn to_u8(self) -> (r: u8)
        ensures
            r == self.spec_to_u8(),
    {
        match self {
            RTPCodecType::Unspecified => 0,
            RTPCodecType::Audio => 1,
            RTPCodecType::Video => 2,
        }
    }

    /// Renders the canonical token for this codec type.
    pub fn to_string(&self) -> (r: String)
        ensures
            r@ == self.spec_to_str(),
    {
        match *self {
            RTPCodecType::Audio => "audio".to_owned(),
            RTPCodecType::Video => "video".to_owned(),
            RTPCodecType::Unspecified => crate::UNSPECIFIED_STR.to_owned(),
        }
    }
}

/// Parsing the canonical rendering of any variant gives the variant back.
pub proof fn lemma_rtp_codec_type_string_round_trip(v: RTPCodecType)
    ensures
        RTPCodecType::spec_from_str(v.spec_to_str()) == v,
{
    reveal_strlit("audio");
    reveal_strlit("video");
    reveal_strlit("Unspecified");
    assert("audio"@.len() == 5);
    assert("video"@.len() == 5);
    assert("Unspecified"@.len() == 11);
    assert("audio"@[0] == 'a' && "video"@[0] == 'v');
}

/// Parsing the ordinal of any variant gives the variant back.
pub proof fn lemma_rtp_codec_type_ordinal_round_trip(v: RTPCodecType)
    ensures
        RTPCodecType::spec_from_u8(v.spec_to_u8()) == v,
{
}

/// Any token outside the canonical set parses to `Unspecified`.
pub proof fn lemma_rtp_codec_type_unknown_token(s: Seq<char>)
    requires
        s != "audio"@,
        s != "video"@,
    ensures
        RTPCodecType::spec_from_str(s) == RTPCodecType::Unspecified,
{
}

/// Any integer outside the ordinal set parses to `Unspecified`.
pub proof fn lemma_rtp_codec_type_unknown_ordinal(v: u8)
    requires
        !(1 <= v <= 2),
    ensures
        RTPCodecType::spec_from_u8(v) == RTPCodecType::Unspecified,
{
}

/// RTCPFeedback signals the connection to use additional RTCP packet types.
#[derive(Debug)]
pub struct RTCPFeedback {
    pub typ: String,
    pub parameter: String,
}

/// Mathematical image of an `RTCPFeedback`.
#[verifier::ext_equal]
pub ghost struct RTCPFeedbackView {
    pub typ: Seq<char>,
    pub parameter: Seq<char>,
}

impl View for RTCPFeedback {
    type V = RTCPFeedbackView;

    open spec fn view(&self) -> RTCPFeedbackView {
        RTCPFeedbackView { typ: self.typ@, parameter: self.parameter@ }
    }
}

impl Clone for RTCPFeedback {
    fn clone(&self) -> (r: Self)
        ensures
            r@ == self@,
    {
        RTCPFeedback { typ: self.typ.clone(), parameter: self.parameter.clone() }
    }
}


impl PartialEq for RTCPFeedback {
    fn eq(&self, other: &RTCPFeedback) -> (r: bool) {
        self.typ == other.typ && self.parameter == other.parameter
    }
}

impl vstd::std_specs::cmp::PartialEqSpecImpl for RTCPFeedback {
    open spec fn obeys_eq_spec() -> bool {
        true
    }

    open spec fn eq_spec(&self, other: &RTCPFeedback) -> bool {
        self@ == other@
    }
}

/// The feedback descriptors of a sequence, as mathematical values.
pub open spec fn feedback_seq_view(s: Seq<RTCPFeedback>) -> Seq<RTCPFeedbackView> {
    s.map_values(|f: RTCPFeedback| f@)
}

fn clone_feedbacks(v: &Vec<RTCPFeedback>) -> (r: Vec<RTCPFeedback>)
    ensures
        feedback_seq_view(r@) == feedback_seq_view(v@),
{
    let mut r: Vec<RTCPFeedback> = Vec::new();
    let mut i: usize = 0;
    while i < v.len()
        invariant
            0 <= i <= v@.len(),
            r@.len() == i,
            forall|j: int| 0 <= j < i ==> r@[j]@ == v@[j]@,
        decreases v@.len() - i,
    {
        r.push(v[i].clone());
        i += 1;
    }
    proof {
        assert(feedback_seq_view(r@) =~= feedback_seq_view(v@));
    }
    r
}

/// RTPCodecCapability provides information about codec capabilities.
#[derive(Debug)]
pub struct RTPCodecCapability {
    pub mime_type: String,
    pub clock_rate: u32,
    pub channels: u16,
    pub sdp_fmtp_line: String,
    pub rtcp_feedback: Vec<RTCPFeedback>,
}

/// Mathematical image of an `RTPCodecCapability`.
#[verifier::ext_equal]
pub ghost struct RTPCodecCapabilityView {
    pub mime_type: Seq<char>,
    pub clock_rate: u32,
    pub channels: u16,
    pub sdp_fmtp_line: Seq<char>,
    pub rtcp_feedback: Seq<RTCPFeedbackView>,
}

impl View for RTPCodecCapability {
    type V = RTPCodecCapabilityView;

    open spec fn view(&self) -> RTPCodecCapabilityView {
        RTPCodecCapabilityView {
            mime_type: self.mime_type@,
            clock_rate: self.clock_rate,
            channels: self.channels,
            sdp_fmtp_line: self.sdp_fmtp_line@,
            rtcp_feedback: feedback_seq_view(self.rtcp_feedback@),
        }
    }
}

/// The capability whose fields are all empty or zero.
pub open spec fn spec_default_capability() -> RTPCodecCapabilityView {
    RTPCodecCapabilityView {
        mime_type: Seq::<char>::empty(),
        clock_rate: 0,
        channels: 0,
        sdp_fmtp_line: Seq::<char>::empty(),
        rtcp_feedback: Seq::<RTCPFeedbackView>::empty(),
    }
}

impl Default for RTPCodecCapability {
    fn default() -> (r: Self)
        ensures
            r@ == spec_default_capability(),
    {
        let r = RTPCodecCapability {
            mime_type: String::new(),
            clock_rate: 0,
            channels: 0,
            sdp_fmtp_line: String::new(),
            rtcp_feedback: Vec::new(),
        };
        proof {
            assert(r@.rtcp_feedback =~= Seq::<RTCPFeedbackView>::empty());
        }
        r
    }
}

impl Clone for RTPCodecCapability {
    fn clone(&self) -> (r: Self)
        ensures
            r@ == self@,
    {
        RTPCodecCapability {
            mime_type: self.mime_type.clone(),
            clock_rate: self.clock_rate,
            channels: self.channels,
            sdp_fmtp_line: self.sdp_fmtp_line.clone(),
            rtcp_feedback: clone_feedbacks(&self.rtcp_feedback),
        }
    }
}


fn feedbacks_eq(a: &Vec<RTCPFeedback>, b: &Vec<RTCPFeedback>) -> (r: bool)
    ensures
        r == (feedback_seq_view(a@) == feedback_seq_view(b@)),
{
    if a.len() != b.len() {
        proof {
            assert(feedback_seq_view(a@).len() != feedback_seq_view(b@).len());
        }
        return false;
    }
    let mut i: usize = 0;
    while i < a.len()
        invariant
            0 <= i <= a@.len(),
            a@.len() == b@.len(),
            forall|j: int| 0 <= j < i ==> a@[j]@ == b@[j]@,
        decreases a@.len() - i,
    {
        if !(a[i] == b[i]) {
            proof {
                assert(feedback_seq_view(a@)[i as int] != feedback_seq_view(b@)[i as int]);
            }
            return false;
        }
        i += 1;
    }
    proof {
        assert(feedback_seq_view(a@) =~= feedback_seq_view(b@));
    }
    true
}

impl PartialEq for RTPCodecCapability {
    fn eq(&self, other: &RTPCodecCapability) -> (r: bool) {
        let r = self.mime_type == other.mime_type && self.clock_rate == other.clock_rate
            && self.channels == other.channels && self.sdp_fmtp_line == other.sdp_fmtp_line
            && feedbacks_eq(&self.rtcp_feedback, &other.rtcp_feedback);
        proof {
            if r {
                assert(self@ =~~= other@);
            }
        }
        r
    }
}

impl vstd::std_specs::cmp::PartialEqSpecImpl for RTPCodecCapability {
    open spec fn obeys_eq_spec() -> bool {
        true
    }

    open spec fn eq_spec(&self, other: &RTPCodecCapability) -> bool {
        self@ == other@
    }
}

/// Payloader identifies the RTP payloader appropriate to a codec; selected
/// by mime-type lookup.
#[derive(Debug, Copy, Clone, PartialEq, Eq, Structural)]
pub enum Payloader {
    H264,
    Vp8,
    Vp9,
    Opus,
    /// Shared payloader for G722, PCMU and PCMA.
    G7xx,
}

/// The payloader selected for a mime type, compared case-insensitively;
/// an unrecognized mime type fails with `ErrNoPayloaderForCodec`.
pub open spec fn spec_payloader_for(mime: Seq<char>) -> Result<Payloader, Error> {
    if spec_upper(mime) == spec_upper("video/H264"@) {
        Ok(Payloader::H264)
    } else if spec_upper(mime) == spec_upper("video/VP8"@) {
        Ok(Payloader::Vp8)
    } else if spec_upper(mime) == spec_upper("video/VP9"@) {
        Ok(Payloader::Vp9)
    } else if spec_upper(mime) == spec_upper("audio/opus"@) {
        Ok(Payloader::Opus)
    } else if spec_upper(mime) == spec_upper("audio/G722"@) || spec_upper(mime) == spec_upper(
        "audio/PCMU"@,
    ) || spec_upper(mime) == spec_upper("audio/PCMA"@) {
        Ok(Payloader::G7xx)
    } else {
        Err(Error::ErrNoPayloaderForCodec)
    }
}

impl RTPCodecCapability {
    /// Returns the payloader appropriate to this capability's mime type
    /// (compared case-insensitively); an unrecognized mime type fails with
    /// `ErrNoPayloaderForCodec`.
    pub fn payloader_for_codec(&self) -> (r: Result<Payloader, Error>)
        ensures
            r == spec_payloader_for(self.mime_type@),
    {
        let mime = self.mime_type.as_str();
        if str_eq_ignore_case(mime, "video/H264") {
            Ok(Payloader::H264)
        } else if str_eq_ignore_case(mime, "video/VP8") {
            Ok(Payloader::Vp8)
        } else if str_eq_ignore_case(mime, "video/VP9") {
            Ok(Payloader::Vp9)
        } else if str_eq_ignore_case(mime, "audio/opus") {
            Ok(Payloader::Opus)
        } else if str_eq_ignore_case(mime, "audio/G722") || str_eq_ignore_case(mime, "audio/PCMU")
            || str_eq_ignore_case(mime, "audio/PCMA") {
            Ok(Payloader::G7xx)
        } else {
            Err(Error::ErrNoPayloaderForCodec)
        }
    }
}

/// RTPHeaderExtensionCapability defines an RTP header extension supported
/// by the codec.
#[derive(Debug)]
pub struct RTPHeaderExtensionCapability {
    pub uri: String,
}

impl Clone for RTPHeaderExtensionCapability {
    fn clone(&self) -> (r: Self)
        ensures
            r.uri@ == self.uri@,
    {
        RTPHeaderExtensionCapability { uri: self.uri.clone() }
    }
}

impl Default for RTPHeaderExtensionCapability {
    fn default() -> (r: Self)
        ensures
            r.uri@ == Seq::<char>::empty(),
    {
        RTPHeaderExtensionCapability { uri: String::new() }
    }
}

/// RTPHeaderExtensionParameter represents a negotiated RTP header extension.
#[derive(Debug)]
pub struct RTPHeaderExtensionParameter {
    pub uri: String,
    pub id: isize,
}

/// Mathematical image of an `RTPHeaderExtensionParameter`.
#[verifier::ext_equal]
pub ghost struct RTPHeaderExtensionParameterView {
    pub uri: Seq<char>,
    pub id: isize,
}

impl View for RTPHeaderExtensionParameter {
    type V = RTPHeaderExtensionParameterView;

    open spec fn view(&self) -> RTPHeaderExtensionParameterView {
        RTPHeaderExtensionParameterView { uri: self.uri@, id: self.id }
    }
}

impl Clone for RTPHeaderExtensionParameter {
    fn clone(&self) -> (r: Self)
        ensures
            r@ == self@,
    {
        RTPHeaderExtensionParameter { uri: self.uri.clone(), id: self.id }
    }
}

impl Default for RTPHeaderExtensionParameter {
    fn default() -> (r: Self)
        ensures
            r@.uri == Seq::<char>::empty(),
            r@.id == 0,
    {
        RTPHeaderExtensionParameter { uri: String::new(), id: 0 }
    }
}

impl PartialEq for RTPHeaderExtensionParameter {
    fn eq(&self, other: &RTPHeaderExtensionParameter) -> (r: bool) {
        self.uri == other.uri && self.id == other.id
    }
}

impl vstd::std_specs::cmp::PartialEqSpecImpl for RTPHeaderExtensionParameter {
    open spec fn obeys_eq_spec() -> bool {
        true
    }

    open spec fn eq_spec(&self, other: &RTPHeaderExtensionParameter) -> bool {
        self@ == other@
    }
}

/// RTPCodecParameters is one entry of the codec sequence an RTP sender
/// chooses from, including the negotiated payload type.
#[derive(Debug)]
pub struct RTPCodecParameters {
    pub capability: RTPCodecCapability,
    pub payload_type: PayloadType,
    pub stats_id: String,
}

/// Mathematical image of an `RTPCodecParameters`.
#[verifier::ext_equal]
pub ghost struct RTPCodecParametersView {
    pub capability: RTPCodecCapabilityView,
    pub payload_type: PayloadType,
    pub stats_id: Seq<char>,
}

impl View for RTPCodecParameters {
    type V = RTPCodecParametersView;

    open spec fn view(&self) -> RTPCodecParametersView {
        RTPCodecParametersView {
            capability: self.capability@,
            payload_type: self.payload_type,
            stats_id: self.stats_id@,
        }
    }
}

/// The codec parameters whose fields are all empty or zero.
pub open spec fn spec_default_codec_parameters() -> RTPCodecParametersView {
    RTPCodecParametersView {
        capability: spec_default_capability(),
        payload_type: 0,
        stats_id: Seq::<char>::empty(),
    }
}

impl Default for RTPCodecParameters {
    fn default() -> (r: Self)
        ensures
            r@ == spec_default_codec_parameters(),
    {
        RTPCodecParameters {
            capability: RTPCodecCapability::default(),
            payload_type: 0,
            stats_id: String::new(),
        }
    }
}

impl Clone for RTPCodecParameters {
    fn clone(&self) -> (r: Self)
        ensures
            r@ == self@,
    {
        RTPCodecParameters {
            capability: self.capability.clone(),
            payload_type: self.payload_type,
            stats_id: self.stats_id.clone(),
        }
    }
}


impl PartialEq for RTPCodecParameters {
    fn eq(&self, other: &RTPCodecParameters) -> (r: bool) {
        let r = self.capability == other.capability && self.payload_type == other.payload_type
            && self.stats_id == other.stats_id;
        proof {
            if r {
                assert(self@ =~~= other@);
            }
        }
        r
    }
}

impl vstd::std_specs::cmp::PartialEqSpecImpl for RTPCodecParameters {
    open spec fn obeys_eq_spec() -> bool {
        true
    }

    open spec fn eq_spec(&self, other: &RTPCodecParameters) -> bool {
        self@ == other@
    }
}

/// The codec parameter entries of a sequence, as mathematical values.
pub open spec fn codec_params_seq_view(s: Seq<RTPCodecParameters>) -> Seq<RTPCodecParametersView> {
    s.map_values(|p: RTPCodecParameters| p@)
}

/// The codec parameter entries of a vector, copied out.
pub(crate) fn clone_codecs(v: &Vec<RTPCodecParameters>) -> (r: Vec<RTPCodecParameters>)
    ensures
        codec_params_seq_view(r@) == codec_params_seq_view(v@),
{
    let mut r: Vec<RTPCodecParameters> = Vec::new();
    let mut i: usize = 0;
    while i < v.len()
        invariant
            0 <= i <= v@.len(),
            r@.len() == i,
            forall|j: int| 0 <= j < i ==> r@[j]@ == v@[j]@,
        decreases v@.len() - i,
    {
        r.push(v[i].clone());
        i += 1;
    }
    proof {
        assert(codec_params_seq_view(r@) =~= codec_params_seq_view(v@));
    }
    r
}

/// RTPParameters is a list of negotiated codecs and header extensions.
#[derive(Debug)]
pub struct RTPParameters {
    pub header_extensions: Vec<RTPHeaderExtensionParameter>,
    pub codecs: Vec<RTPCodecParameters>,
}

/// The header extension entries of a sequence, as mathematical values.
pub open spec fn header_extension_seq_view(
    s: Seq<RTPHeaderExtensionParameter>,
) -> Seq<RTPHeaderExtensionParameterView> {
    s.map_values(|p: RTPHeaderExtensionParameter| p@)
}

impl Default for RTPParameters {
    fn default() -> (r: Self)
        ensures
            r.header_extensions@.len() == 0,
            r.codecs@.len() == 0,
    {
        RTPParameters { header_extensions: Vec::new(), codecs: Vec::new() }
    }
}

impl Clone for RTPParameters {
    fn clone(&self) -> (r: Self)
        ensures
            header_extension_seq_view(r.header_extensions@) == header_extension_seq_view(
                self.header_extensions@,
            ),
            codec_params_seq_view(r.codecs@) == codec_params_seq_view(self.codecs@),
    {
        let mut header_extensions: Vec<RTPHeaderExtensionParameter> = Vec::new();
        let mut i: usize = 0;
        while i < self.header_extensions.len()
            invariant
                0 <= i <= self.header_extensions@.len(),
                header_extensions@.len() == i,
                forall|j: int|
                    0 <= j < i ==> header_extensions@[j]@ == self.header_extensions@[j]@,
            decreases self.header_extensions@.len() - i,
        {
            header_extensions.push(self.header_extensions[i].clone());
            i += 1;
        }
        proof {
            assert(header_extension_seq_view(header_extensions@) =~= header_extension_seq_view(
                self.header_extensions@,
            ));
        }
        RTPParameters { header_extensions, codecs: clone_codecs(&self.codecs) }
    }
}

/// CodecMatch reports how closely the fuzzy matcher matched a codec.
#[derive(Debug, Copy, Clone, PartialEq, Eq, Structural)]
pub enum CodecMatch {
    /// No haystack entry shares the needle's mime type.
    Unmatched,
    /// A haystack entry shares the mime type, but no entry also has a
    /// consistent fmtp line.
    Partial,
    /// A haystack entry shares the mime type and has a consistent fmtp line.
    Exact,
}

impl Default for CodecMatch {
    fn default() -> (r: Self)
        ensures
            r == CodecMatch::Unmatched,
    {
        CodecMatch::Unmatched
    }
}

impl CodecMatch {
    /// The variant with ordinal `v`; any other value maps to `Unmatched`.
    pub open spec fn spec_from_u8(v: u8) -> CodecMatch {
        if v == 1 {
            CodecMatch::Partial
        } else if v == 2 {
            CodecMatch::Exact
        } else {
            CodecMatch::Unmatched
        }
    }

    /// Stable ordinal of each variant.
    pub open spec fn spec_to_u8(self) -> u8 {
        match self {
            CodecMatch::Unmatched => 0,
            CodecMatch::Partial => 1,
            CodecMatch::Exact => 2,
        }
    }

    /// Parses the ordinal; any other value yields `Unmatched`.
    pub fn from_u8(v: u8) -> (r: CodecMatch)
        ensures
            r == CodecMatch::spec_from_u8(v),
    {
        match v {
            1 => CodecMatch::Partial,
            2 => CodecMatch::Exact,
            _ => CodecMatch::Unmatched,
        }
    }

    /// The stable ordinal of this match level.
    pub fn to_u8(self) -> (r: u8)
        ensures
            r == self.spec_to_u8(),
    {
        match self {
            CodecMatch::Unmatched => 0,
            CodecMatch::Partial => 1,
            CodecMatch::Exact => 2,
        }
    }
}

/// Parsing the ordinal of any variant gives the variant back.
pub proof fn lemma_codec_match_ordinal_round_trip(v: CodecMatch)
    ensures
        CodecMatch::spec_from_u8(v.spec_to_u8()) == v,
{
}

/// Two capabilities agree on mime type, compared case-insensitively.
pub open spec fn spec_mime_match(a: RTPCodecCapabilityView, b: RTPCodecCapabilityView) -> bool {
    spec_upper(a.mime_type) == spec_upper(b.mime_type)
}

/// A haystack entry matches the needle exactly: equal mime type
/// (case-insensitively) and fmtp lines consistent with each other.
pub open spec fn spec_exact_match(n: RTPCodecParametersView, h: RTPCodecParametersView) -> bool {
    spec_mime_match(n.capability, h.capability) && spec_fmtp_consistent(
        n.capability.sdp_fmtp_line,
        h.capability.sdp_fmtp_line,
    )
}

/// Index of the first exact match for `n` in `hs`, or -1.
pub open spec fn spec_first_exact(
    n: RTPCodecParametersView,
    hs: Seq<RTPCodecParametersView>,
) -> int
    decreases hs.len(),
{
    if hs.len() == 0 {
        -1
    } else if spec_exact_match(n, hs[0]) {
        0
    } else {
        let r = spec_first_exact(n, hs.drop_first());
        if r < 0 {
            -1
        } else {
            r + 1
        }
    }
}

/// Index of the first mime-type match for `n` in `hs`, or -1.
pub open spec fn spec_first_partial(
    n: RTPCodecParametersView,
    hs: Seq<RTPCodecParametersView>,
) -> int
    decreases hs.len(),
{
    if hs.len() == 0 {
        -1
    } else if spec_mime_match(n.capability, hs[0].capability) {
        0
    } else {
        let r = spec_first_partial(n, hs.drop_first());
        if r < 0 {
            -1
        } else {
            r + 1
        }
    }
}

proof fn lemma_first_exact_at(n: RTPCodecParametersView, hs: Seq<RTPCodecParametersView>, i: int)
    requires
        0 <= i < hs.len(),
        spec_exact_match(n, hs[i]),
        forall|j: int| 0 <= j < i ==> !spec_exact_match(n, hs[j]),
    ensures
        spec_first_exact(n, hs) == i,
    decreases hs.len(),
{
    if i > 0 {
        assert(forall|j: int| 0 <= j < i - 1 ==> hs.drop_first()[j] == hs[j + 1]);
        lemma_first_exact_at(n, hs.drop_first(), i - 1);
    }
}

proof fn lemma_first_exact_absent(n: RTPCodecParametersView, hs: Seq<RTPCodecParametersView>)
    requires
        forall|j: int| 0 <= j < hs.len() ==> !spec_exact_match(n, hs[j]),
    ensures
        spec_first_exact(n, hs) == -1,
    decreases hs.len(),
{
    if hs.len() > 0 {
        assert(forall|j: int| 0 <= j < hs.len() - 1 ==> hs.drop_first()[j] == hs[j + 1]);
        lemma_first_exact_absent(n, hs.drop_first());
    }
}

proof fn lemma_first_partial_at(n: RTPCodecParametersView, hs: Seq<RTPCodecParametersView>, i: int)
    requires
        0 <= i < hs.len(),
        spec_mime_match(n.capability, hs[i].capability),
        forall|j: int| 0 <= j < i ==> !spec_mime_match(n.capability, hs[j].capability),
    ensures
        spec_first_partial(n, hs) == i,
    decreases hs.len(),
{
    if i > 0 {
        assert(forall|j: int| 0 <= j < i - 1 ==> hs.drop_first()[j] == hs[j + 1]);
        lemma_first_partial_at(n, hs.drop_first(), i - 1);
    }
}

proof fn lemma_first_partial_absent(n: RTPCodecParametersView, hs: Seq<RTPCodecParametersView>)
    requires
        forall|j: int| 0 <= j < hs.len() ==> !spec_mime_match(n.capability, hs[j].capability),
    ensures
        spec_first_partial(n, hs) == -1,
    decreases hs.len(),
{
    if hs.len() > 0 {
        assert(forall|j: int| 0 <= j < hs.len() - 1 ==> hs.drop_first()[j] == hs[j + 1]);
        lemma_first_partial_absent(n, hs.drop_first());
    }
}

/// What the fuzzy matcher returns for `n` against `hs`: the first exact
/// match with `Exact`; else the first mime-type match with `Partial`; else
/// the default codec with `Unmatched`.
pub open spec fn spec_fuzzy_search_result(
    n: RTPCodecParametersView,
    hs: Seq<RTPCodecParametersView>,
) -> (RTPCodecParametersView, CodecMatch) {
    let e = spec_first_exact(n, hs);
    let p = spec_first_partial(n, hs);
    if e >= 0 {
        (hs[e], CodecMatch::Exact)
    } else if p >= 0 {
        (hs[p], CodecMatch::Partial)
    } else {
        (spec_default_codec_parameters(), CodecMatch::Unmatched)
    }
}

/// Do a fuzzy find for a codec in the list of codecs: first scan for an
/// entry whose mime type matches case-insensitively and whose fmtp line is
/// consistent with the needle's; then fall back to mime type alone; the
/// ordering of the haystack defines priority.
pub fn codec_parameters_fuzzy_search(
    needle: &RTPCodecParameters,
    haystack: &[RTPCodecParameters],
) -> (r: (RTPCodecParameters, CodecMatch))
    ensures
        r.0@ == spec_fuzzy_search_result(needle@, codec_params_seq_view(haystack@)).0,
        r.1 == spec_fuzzy_search_result(needle@, codec_params_seq_view(haystack@)).1,
{
    let ghost hs = codec_params_seq_view(haystack@);
    let needle_fmtp = parse_fmtp(needle.capability.sdp_fmtp_line.as_str());

    // First attempt to match on mime type and fmtp consistency.
    let mut i: usize = 0;
    while i < haystack.len()
        invariant
            0 <= i <= haystack@.len(),
            hs == codec_params_seq_view(haystack@),
            crate::fmtp::params_view(needle_fmtp@) == crate::fmtp::spec_parse_fmtp(
                needle@.capability.sdp_fmtp_line,
            ),
            forall|j: int| 0 <= j < i ==> !spec_exact_match(needle@, hs[j]),
        decreases haystack@.len() - i,
    {
        let c = &haystack[i];
        if str_eq_ignore_case(c.capability.mime_type.as_str(), needle.capability.mime_type.as_str())
        {
            let c_fmtp = parse_fmtp(c.capability.sdp_fmtp_line.as_str());
            if fmtp_consist(&needle_fmtp, &c_fmtp) {
                proof {
                    lemma_first_exact_at(needle@, hs, i as int);
                }
                return (c.clone(), CodecMatch::Exact);
            }
        }
        i += 1;
    }
    proof {
        lemma_first_exact_absent(needle@, hs);
    }

    // Fall back to mime type alone.
    let mut i: usize = 0;
    while i < haystack.len()
        invariant
            0 <= i <= haystack@.len(),
            hs == codec_params_seq_view(haystack@),
            spec_first_exact(needle@, hs) == -1,
            forall|j: int| 0 <= j < i ==> !spec_mime_match(needle@.capability, hs[j].capability),
        decreases haystack@.len() - i,
    {
        let c = &haystack[i];
        if str_eq_ignore_case(c.capability.mime_type.as_str(), needle.capability.mime_type.as_str())
        {
            proof {
                lemma_first_partial_at(needle@, hs, i as int);
            }
            return (c.clone(), CodecMatch::Partial);
        }
        i += 1;
    }
    proof {
        lemma_first_partial_absent(needle@, hs);
    }
    (RTPCodecParameters::default(), CodecMatch::Unmatched)
}

} // verus!
