//! SDP fmtp attribute handling: parsing a `k=v;k=v` parameter line into
//! key/value pairs (keys folded to lowercase) and deciding whether two
//! parameter sets are consistent.
//!
//! Two sets are consistent when every key present in both maps to equal
//! values; a key present in only one set is not a conflict, so a caller may
//! under-specify parameters and still match. Keys are folded to ASCII
//! lowercase when parsed; values are compared exactly, for every key, so a
//! hex-valued parameter written in the other case does not match.

use vstd::prelude::*;
use crate::strutil::{chars_to_string, spec_lower, str_eq_str, str_to_chars};

verus! {

/// One `key=value` parameter of an fmtp line. Keys are stored lowercased;
/// values keep their original case.
#[derive(Debug)]
pub struct FmtpParameter {
    pub key: String,
    pub value: String,
}

impl Clone for FmtpParameter {
    fn clone(&self) -> (r: Self)
        ensures
            r.key@ == self.key@,
            r.value@ == self.value@,
    {
        FmtpParameter { key: self.key.clone(), value: self.value.clone() }
    }
}

/// The key/value pairs of a parameter sequence, as mathematical strings.
pub open spec fn params_view(s: Seq<FmtpParameter>) -> Seq<(Seq<char>, Seq<char>)> {
    s.map_values(|p: FmtpParameter| (p.key@, p.value@))
}

/// Index of the first occurrence of `c` in `s`, or -1 when absent.
pub open spec fn spec_find(s: Seq<char>, c: char) -> int
    decreases s.len(),
{
    if s.len() == 0 {
        -1
    } else if s[0] == c {
        0
    } else {
        let r = spec_find(s.drop_first(), c);
        if r < 0 {
            -1
        } else {
            r + 1
        }
    }
}

/// One segment of an fmtp line, split at its first `=`: the key (lowercased)
/// and the value (empty when the segment has no `=`).
pub open spec fn spec_parse_param(seg: Seq<char>) -> (Seq<char>, Seq<char>) {
    let j = spec_find(seg, '=');
    if 0 <= j < seg.len() {
        (spec_lower(seg.take(j)), seg.skip(j + 1))
    } else {
        (spec_lower(seg), Seq::<char>::empty())
    }
}

/// An fmtp line parsed into parameters: segments split on `;`, each split at
/// its first `=`.
pub open spec fn spec_parse_fmtp(s: Seq<char>) -> Seq<(Seq<char>, Seq<char>)>
    decreases s.len(),
{
    let i = spec_find(s, ';');
    if 0 <= i < s.len() {
        seq![spec_parse_param(s.take(i))] + spec_parse_fmtp(s.skip(i + 1))
    } else {
        seq![spec_parse_param(s)]
    }
}

/// The value bound to `k`, taking the last occurrence when a key repeats
/// (later parameters overwrite earlier ones).
pub open spec fn spec_lookup(ps: Seq<(Seq<char>, Seq<char>)>, k: Seq<char>) -> Option<Seq<char>>
    decreases ps.len(),
{
    if ps.len() == 0 {
        None
    } else if ps.last().0 == k {
        Some(ps.last().1)
    } else {
        spec_lookup(ps.drop_last(), k)
    }
}

/// Every key present in both parameter sets maps to equal values.
pub open spec fn spec_params_consistent(
    pa: Seq<(Seq<char>, Seq<char>)>,
    pb: Seq<(Seq<char>, Seq<char>)>,
) -> bool {
    forall|i: int|
        #![trigger pa[i]]
        0 <= i < pa.len() ==> match spec_lookup(pb, pa[i].0) {
            Some(w) => spec_lookup(pa, pa[i].0) == Some(w),
            None => true,
        }
}

/// Consistency of two raw fmtp lines.
pub open spec fn spec_fmtp_consistent(a: Seq<char>, b: Seq<char>) -> bool {
    spec_params_consistent(spec_parse_fmtp(a), spec_parse_fmtp(b))
}

proof fn lemma_lookup_some_has_entry(ps: Seq<(Seq<char>, Seq<char>)>, k: Seq<char>)
    requires
        spec_lookup(ps, k) is Some,
    ensures
        exists|i: int| 0 <= i < ps.len() && (#[trigger] ps[i]).0 == k,
    decreases ps.len(),
{
    if ps.last().0 != k {
        lemma_lookup_some_has_entry(ps.drop_last(), k);
        let i = choose|i: int| 0 <= i < ps.drop_last().len() && (#[trigger] ps.drop_last()[i]).0
            == k;
        assert(ps[i].0 == k);
    } else {
        assert(ps[ps.len() - 1].0 == k);
    }
}

/// Consistency is mutual: it constrains only the keys present in both
/// parameter sets, so whichever side's entries are walked, the same
/// agreement is stated.
pub proof fn lemma_params_consistent_symmetric(
    pa: Seq<(Seq<char>, Seq<char>)>,
    pb: Seq<(Seq<char>, Seq<char>)>,
)
    requires
        spec_params_consistent(pa, pb),
    ensures
        spec_params_consistent(pb, pa),
{
    assert forall|j: int| 0 <= j < pb.len() implies match spec_lookup(pa, (#[trigger] pb[j]).0) {
        Some(w) => spec_lookup(pb, pb[j].0) == Some(w),
        None => true,
    } by {
        let k = pb[j].0;
        if spec_lookup(pa, k) is Some {
            lemma_lookup_some_has_entry(pa, k);
            let i = choose|i: int| 0 <= i < pa.len() && (#[trigger] pa[i]).0 == k;
            lemma_lookup_present(pb, j);
            assert(spec_lookup(pb, pa[i].0) is Some);
        }
    }
}

proof fn lemma_find_at(s: Seq<char>, c: char, i: int)
    requires
        0 <= i < s.len(),
        s[i] == c,
        forall|j: int| 0 <= j < i ==> s[j] != c,
    ensures
        spec_find(s, c) == i,
    decreases s.len(),
{
    if i > 0 {
        assert(forall|j: int| 0 <= j < i - 1 ==> s.drop_first()[j] == s[j + 1]);
        lemma_find_at(s.drop_first(), c, i - 1);
    }
}

proof fn lemma_find_absent(s: Seq<char>, c: char)
    requires
        forall|j: int| 0 <= j < s.len() ==> s[j] != c,
    ensures
        spec_find(s, c) == -1,
    decreases s.len(),
{
    if s.len() > 0 {
        assert(forall|j: int| 0 <= j < s.len() - 1 ==> s.drop_first()[j] == s[j + 1]);
        lemma_find_absent(s.drop_first(), c);
    }
}

/// First occurrence of `c` within `chars[start..end]`, as an absolute index.
pub(crate) fn find_in(chars: &Vec<char>, start: usize, end: usize, c: char) -> (r: Option<usize>)
    requires
        start <= end <= chars@.len(),
    ensures
        match r {
            Some(i) => start <= i < end && spec_find(
                chars@.subrange(start as int, end as int),
                c,
            ) == i - start,
            None => spec_find(chars@.subrange(start as int, end as int), c) == -1,
        },
{
    let ghost seg = chars@.subrange(start as int, end as int);
    let mut i: usize = start;
    while i < end
        invariant
            start <= i <= end <= chars@.len(),
            seg == chars@.subrange(start as int, end as int),
            forall|j: int| 0 <= j < i - start ==> seg[j] != c,
        decreases end - i,
    {
        if chars[i] == c {
            proof {
                lemma_find_at(seg, c, i - start);
            }
            return Some(i);
        }
        i += 1;
    }
    proof {
        lemma_find_absent(seg, c);
    }
    None
}

/// The characters `chars[start..end]`, copied out.
pub(crate) fn slice_chars(chars: &Vec<char>, start: usize, end: usize) -> (r: Vec<char>)
    requires
        start <= end <= chars@.len(),
    ensures
        r@ == chars@.subrange(start as int, end as int),
{
    let mut r: Vec<char> = Vec::new();
    let mut i: usize = start;
    while i < end
        invariant
            start <= i <= end <= chars@.len(),
            r@ == chars@.subrange(start as int, i as int),
        decreases end - i,
    {
        r.push(chars[i]);
        proof {
            assert(r@ =~= chars@.subrange(start as int, i as int + 1));
        }
        i += 1;
    }
    r
}

/// The characters `chars[start..end]`, lowercased (ASCII folding).
fn lower_chars(chars: &Vec<char>, start: usize, end: usize) -> (r: Vec<char>)
    requires
        start <= end <= chars@.len(),
    ensures
        r@ == spec_lower(chars@.subrange(start as int, end as int)),
{
    let mut r: Vec<char> = Vec::new();
    let mut i: usize = start;
    while i < end
        invariant
            start <= i <= end <= chars@.len(),
            r@ == spec_lower(chars@.subrange(start as int, i as int)),
        decreases end - i,
    {
        let c = chars[i];
        if 'A' <= c && c <= 'Z' {
            r.push(((c as u8) + 32) as char);
        } else {
            r.push(c);
        }
        proof {
            assert(r@ =~= spec_lower(chars@.subrange(start as int, i as int + 1)));
        }
        i += 1;
    }
    r
}

/// Builds the parameter for the segment `chars[start..end]`.
fn make_param(chars: &Vec<char>, start: usize, end: usize) -> (p: FmtpParameter)
    requires
        start <= end <= chars@.len(),
    ensures
        p.key@ == spec_parse_param(chars@.subrange(start as int, end as int)).0,
        p.value@ == spec_parse_param(chars@.subrange(start as int, end as int)).1,
{
    let ghost seg = chars@.subrange(start as int, end as int);
    match find_in(chars, start, end, '=') {
        Some(j) => {
            proof {
                assert(seg.take(j - start) =~= chars@.subrange(start as int, j as int));
                assert(seg.skip(j - start + 1) =~= chars@.subrange(j as int + 1, end as int));
            }
            let key = lower_chars(chars, start, j);
            let value = slice_chars(chars, j + 1, end);
            FmtpParameter { key: chars_to_string(&key), value: chars_to_string(&value) }
        },
        None => {
            let key = lower_chars(chars, start, end);
            FmtpParameter { key: chars_to_string(&key), value: String::new() }
        },
    }
}

fn parse_fmtp_from(chars: &Vec<char>, start: usize) -> (r: Vec<FmtpParameter>)
    requires
        start <= chars@.len(),
    ensures
        params_view(r@) == spec_parse_fmtp(chars@.skip(start as int)),
    decreases chars@.len() - start,
{
    let ghost suffix = chars@.skip(start as int);
    proof {
        assert(suffix =~= chars@.subrange(start as int, chars@.len() as int));
    }
    match find_in(chars, start, chars.len(), ';') {
        Some(i) => {
            proof {
                assert(suffix.take(i - start) =~= chars@.subrange(start as int, i as int));
                assert(suffix.skip(i - start + 1) =~= chars@.skip(i as int + 1));
            }
            let p = make_param(chars, start, i);
            let mut rest = parse_fmtp_from(chars, i + 1);
            let mut r: Vec<FmtpParameter> = Vec::new();
            r.push(p);
            r.append(&mut rest);
            proof {
                assert(params_view(r@) =~~= seq![
                    spec_parse_param(suffix.take(i - start)),
                ] + spec_parse_fmtp(suffix.skip(i - start + 1)));
            }
            r
        },
        None => {
            let p = make_param(chars, start, chars.len());
            let mut r: Vec<FmtpParameter> = Vec::new();
            r.push(p);
            proof {
                assert(params_view(r@) =~~= seq![spec_parse_param(suffix)]);
            }
            r
        },
    }
}

/// Parses an fmtp line into its parameters: segments split on `;`, each
/// split at its first `=`, keys lowercased.
pub fn parse_fmtp(line: &str) -> (r: Vec<FmtpParameter>)
    ensures
        params_view(r@) == spec_parse_fmtp(line@),
{
    let chars = str_to_chars(line);
    let r = parse_fmtp_from(&chars, 0);
    proof {
        assert(chars@.skip(0) =~= line@);
    }
    r
}

proof fn lemma_lookup_present(ps: Seq<(Seq<char>, Seq<char>)>, i: int)
    requires
        0 <= i < ps.len(),
    ensures
        spec_lookup(ps, ps[i].0) is Some,
    decreases ps.len(),
{
    if ps.last().0 != ps[i].0 {
        lemma_lookup_present(ps.drop_last(), i);
    }
}

/// The value bound to `k` in `ps`, taking the last occurrence when a key
/// repeats.
pub fn lookup_param(ps: &Vec<FmtpParameter>, k: &str) -> (r: Option<String>)
    ensures
        match r {
            Some(v) => spec_lookup(params_view(ps@), k@) == Some(v@),
            None => spec_lookup(params_view(ps@), k@) is None,
        },
{
    let ghost pv = params_view(ps@);
    proof {
        assert(pv.take(ps@.len() as int) =~= pv);
    }
    let mut i: usize = ps.len();
    while i > 0
        invariant
            0 <= i <= ps@.len(),
            pv == params_view(ps@),
            spec_lookup(pv, k@) == spec_lookup(pv.take(i as int), k@),
        decreases i,
    {
        i -= 1;
        proof {
            assert(pv.take(i as int + 1).drop_last() =~= pv.take(i as int));
            assert(pv.take(i as int + 1).last() == pv[i as int]);
        }
        if str_eq_str(ps[i].key.as_str(), k) {
            return Some(ps[i].value.clone());
        }
    }
    None
}

/// Decides whether two parameter sets are consistent: every key present in
/// both maps to equal values.
pub fn fmtp_consist(a: &Vec<FmtpParameter>, b: &Vec<FmtpParameter>) -> (r: bool)
    ensures
        r == spec_params_consistent(params_view(a@), params_view(b@)),
{
    let ghost pa = params_view(a@);
    let ghost pb = params_view(b@);
    let mut i: usize = 0;
    while i < a.len()
        invariant
            0 <= i <= a@.len(),
            pa == params_view(a@),
            pb == params_view(b@),
            forall|j: int|
                #![trigger pa[j]]
                0 <= j < i ==> match spec_lookup(pb, pa[j].0) {
                    Some(w) => spec_lookup(pa, pa[j].0) == Some(w),
                    None => true,
                },
        decreases a@.len() - i,
    {
        match lookup_param(b, a[i].key.as_str()) {
            Some(w) => {
                match lookup_param(a, a[i].key.as_str()) {
                    Some(v) => {
                        if !str_eq_str(v.as_str(), w.as_str()) {
                            proof {
                                assert(!spec_params_consistent(pa, pb)) by {
                                    assert(spec_lookup(pb, pa[i as int].0) == Some(w@));
                                    assert(spec_lookup(pa, pa[i as int].0) == Some(v@));
                                }
                            }
                            return false;
                        }
                    },
                    None => {
                        proof {
                            lemma_lookup_present(pa, i as int);
                        }
                    },
                }
            },
            None => {},
        }
        i += 1;
    }
    true
}

} // verus!
