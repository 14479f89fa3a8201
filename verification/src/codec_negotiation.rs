//! Offer/answer codec negotiation: filtering a local preference list against
//! the codecs a remote offer carries, keeping the remote payload types, and
//! rendering the rtpmap attribute lines of the result.

use vstd::prelude::*;
use crate::fmtp::{find_in, slice_chars, spec_find};
use crate::rtp_codec::{
    codec_params_seq_view, codec_parameters_fuzzy_search, spec_fuzzy_search_result, CodecMatch,
    RTPCodecParameters, RTPCodecParametersView,
};
use crate::strutil::{chars_to_string, dec_chars, push_all, spec_dec_digits, str_to_chars};

verus! {

/// The codecs an answer carries for one media section: each locally
/// preferred codec that the remote offer also has (by fuzzy match, exact or
/// partial) is kept as the remote entry, so the payload type the offer
/// assigned survives; local codecs the remote does not support are dropped.
/// Local preference order is preserved.
pub open spec fn spec_negotiated_codecs(
    local: Seq<RTPCodecParametersView>,
    remote: Seq<RTPCodecParametersView>,
) -> Seq<RTPCodecParametersView>
    decreases local.len(),
{
    if local.len() == 0 {
        Seq::<RTPCodecParametersView>::empty()
    } else {
        let m = spec_fuzzy_search_result(local[0], remote);
        let rest = spec_negotiated_codecs(local.drop_first(), remote);
        if m.1 == CodecMatch::Exact || m.1 == CodecMatch::Partial {
            seq![m.0] + rest
        } else {
            rest
        }
    }
}

/// Filters `local` preference order against the `remote` offer, as
/// `spec_negotiated_codecs` lays out.
pub fn negotiate_codecs(
    local: &Vec<RTPCodecParameters>,
    remote: &Vec<RTPCodecParameters>,
) -> (r: Vec<RTPCodecParameters>)
    ensures
        codec_params_seq_view(r@) == spec_negotiated_codecs(
            codec_params_seq_view(local@),
            codec_params_seq_view(remote@),
        ),
{
    let ghost lv = codec_params_seq_view(local@);
    let ghost rv = codec_params_seq_view(remote@);
    let mut r: Vec<RTPCodecParameters> = Vec::new();
    let mut i: usize = 0;
    proof {
        assert(lv.skip(0) =~= lv);
    }
    while i < local.len()
        invariant
            0 <= i <= local@.len(),
            lv == codec_params_seq_view(local@),
            rv == codec_params_seq_view(remote@),
            spec_negotiated_codecs(lv, rv) == codec_params_seq_view(r@) + spec_negotiated_codecs(
                lv.skip(i as int),
                rv,
            ),
        decreases local@.len() - i,
    {
        let ghost suffix = lv.skip(i as int);
        proof {
            assert(suffix[0] == lv[i as int]);
            assert(suffix.drop_first() =~= lv.skip(i as int + 1));
            assert(lv[i as int] == local@[i as int]@);
        }
        let found = codec_parameters_fuzzy_search(&local[i], remote.as_slice());
        match found.1 {
            CodecMatch::Exact | CodecMatch::Partial => {
                r.push(found.0);
                proof {
                    assert(codec_params_seq_view(r@) =~~= codec_params_seq_view(r@.drop_last())
                        + seq![found.0@]);
                    assert(codec_params_seq_view(r@.drop_last()) + (seq![found.0@]
                        + spec_negotiated_codecs(lv.skip(i as int + 1), rv))
                        =~= codec_params_seq_view(r@) + spec_negotiated_codecs(
                        lv.skip(i as int + 1),
                        rv,
                    ));
                }
            },
            CodecMatch::Unmatched => {},
        }
        i += 1;
    }
    proof {
        assert(lv.skip(local@.len() as int) =~= Seq::<RTPCodecParametersView>::empty());
        assert(codec_params_seq_view(r@) + Seq::<RTPCodecParametersView>::empty()
            =~= codec_params_seq_view(r@));
    }
    r
}

/// The codec name in an rtpmap attribute: the part of the mime type after
/// its first `/`, or the whole mime type when it has none.
pub open spec fn spec_mime_subtype(m: Seq<char>) -> Seq<char> {
    let i = spec_find(m, '/');
    if 0 <= i < m.len() {
        m.skip(i + 1)
    } else {
        m
    }
}

/// The rtpmap attribute for one negotiated codec:
/// `a=rtpmap:<payload type> <codec name>/<clock rate>` with `/<channels>`
/// appended when the channel count is nonzero.
pub open spec fn spec_rtpmap_line(c: RTPCodecParametersView) -> Seq<char> {
    "a=rtpmap:"@ + spec_dec_digits(c.payload_type as nat) + seq![' '] + spec_mime_subtype(
        c.capability.mime_type,
    ) + seq!['/'] + spec_dec_digits(c.capability.clock_rate as nat) + if c.capability.channels > 0 {
        seq!['/'] + spec_dec_digits(c.capability.channels as nat)
    } else {
        Seq::<char>::empty()
    }
}

/// The rtpmap attribute lines of a codec list, each terminated by CRLF.
pub open spec fn spec_rtpmap_lines(cs: Seq<RTPCodecParametersView>) -> Seq<char>
    decreases cs.len(),
{
    if cs.len() == 0 {
        Seq::<char>::empty()
    } else {
        spec_rtpmap_line(cs[0]) + "\r\n"@ + spec_rtpmap_lines(cs.drop_first())
    }
}

/// Renders the rtpmap attribute for one codec.
pub fn rtpmap_line(c: &RTPCodecParameters) -> (r: String)
    ensures
        r@ == spec_rtpmap_line(c@),
{
    let mut out = str_to_chars("a=rtpmap:");
    let pt = dec_chars(c.payload_type as u32);
    push_all(&mut out, &pt);
    out.push(' ');
    let mime = str_to_chars(c.capability.mime_type.as_str());
    proof {
        assert(mime@.subrange(0, mime@.len() as int) =~= mime@);
    }
    let name = match find_in(&mime, 0, mime.len(), '/') {
        Some(i) => slice_chars(&mime, i + 1, mime.len()),
        None => slice_chars(&mime, 0, mime.len()),
    };
    proof {
        assert(name@ =~= spec_mime_subtype(c@.capability.mime_type));
    }
    push_all(&mut out, &name);
    out.push('/');
    let clock = dec_chars(c.capability.clock_rate);
    push_all(&mut out, &clock);
    if c.capability.channels > 0 {
        out.push('/');
        let channels = dec_chars(c.capability.channels as u32);
        push_all(&mut out, &channels);
    }
    proof {
        assert(out@ =~= spec_rtpmap_line(c@));
    }
    chars_to_string(&out)
}

/// Renders the rtpmap attribute lines for a negotiated codec list, each
/// terminated by CRLF.
pub fn rtpmap_lines(codecs: &Vec<RTPCodecParameters>) -> (r: String)
    ensures
        r@ == spec_rtpmap_lines(codec_params_seq_view(codecs@)),
{
    let ghost cv = codec_params_seq_view(codecs@);
    let mut out: Vec<char> = Vec::new();
    let mut i: usize = 0;
    proof {
        assert(cv.skip(0) =~= cv);
        assert(out@ + spec_rtpmap_lines(cv) =~= spec_rtpmap_lines(cv));
    }
    while i < codecs.len()
        invariant
            0 <= i <= codecs@.len(),
            cv == codec_params_seq_view(codecs@),
            spec_rtpmap_lines(cv) == out@ + spec_rtpmap_lines(cv.skip(i as int)),
        decreases codecs@.len() - i,
    {
        let ghost suffix = cv.skip(i as int);
        proof {
            assert(suffix[0] == cv[i as int]);
            assert(suffix.drop_first() =~= cv.skip(i as int + 1));
            assert(cv[i as int] == codecs@[i as int]@);
        }
        let line = rtpmap_line(&codecs[i]);
        let line_chars = str_to_chars(line.as_str());
        push_all(&mut out, &line_chars);
        let crlf = str_to_chars("\r\n");
        push_all(&mut out, &crlf);
        proof {
            assert(spec_rtpmap_lines(cv) =~= out@ + spec_rtpmap_lines(cv.skip(i as int + 1)));
        }
        i += 1;
    }
    proof {
        assert(cv.skip(codecs@.len() as int) =~= Seq::<RTPCodecParametersView>::empty());
        assert(out@ + spec_rtpmap_lines(Seq::<RTPCodecParametersView>::empty()) =~= out@);
    }
    chars_to_string(&out)
}

} // verus!
