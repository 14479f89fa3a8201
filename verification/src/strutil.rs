//! Character-level string utilities shared by the enum parsers, the fmtp
//! parser and the mime-type comparisons: exact and ASCII-case-insensitive
//! equality, case folding, and decimal rendering.

use vstd::prelude::*;
use vstd::string::*;

verus! {

/// Uppercase image of one character under ASCII folding.
pub open spec fn spec_upper_char(c: char) -> char {
    if 'a' <= c <= 'z' {
        (((c as u8) - 32) as char)
    } else {
        c
    }
}

/// Lowercase image of one character under ASCII folding.
pub open spec fn spec_lower_char(c: char) -> char {
    if 'A' <= c <= 'Z' {
        (((c as u8) + 32) as char)
    } else {
        c
    }
}

/// A string uppercased character by character (ASCII folding).
pub open spec fn spec_upper(s: Seq<char>) -> Seq<char> {
    s.map_values(|c: char| spec_upper_char(c))
}

/// A string lowercased character by character (ASCII folding).
pub open spec fn spec_lower(s: Seq<char>) -> Seq<char> {
    s.map_values(|c: char| spec_lower_char(c))
}

/// Exact equality of two string slices, decided character by character.
pub fn str_eq_str(a: &str, b: &str) -> (r: bool)
    ensures
        r == (a@ == b@),
{
    let alen = a.unicode_len();
    let blen = b.unicode_len();
    if alen != blen {
        return false;
    }
    let mut i: usize = 0;
    while i < alen
        invariant
            0 <= i <= alen,
            alen == a@.len(),
            alen == b@.len(),
            forall|j: int| 0 <= j < i ==> a@[j] == b@[j],
        decreases alen - i,
    {
        if a.get_char(i) != b.get_char(i) {
            return false;
        }
        i += 1;
    }
    proof {
        assert(a@ =~= b@);
    }
    true
}

fn upper_char(c: char) -> (r: char)
    ensures
        r == spec_upper_char(c),
{
    if 'a' <= c && c <= 'z' {
        ((c as u8) - 32) as char
    } else {
        c
    }
}

fn lower_char(c: char) -> (r: char)
    ensures
        r == spec_lower_char(c),
{
    if 'A' <= c && c <= 'Z' {
        ((c as u8) + 32) as char
    } else {
        c
    }
}

/// ASCII-case-insensitive equality of two string slices.
pub fn str_eq_ignore_case(a: &str, b: &str) -> (r: bool)
    ensures
        r == (spec_upper(a@) == spec_upper(b@)),
{
    let alen = a.unicode_len();
    let blen = b.unicode_len();
    if alen != blen {
        proof {
            assert(spec_upper(a@).len() != spec_upper(b@).len());
        }
        return false;
    }
    let mut i: usize = 0;
    while i < alen
        invariant
            0 <= i <= alen,
            alen == a@.len(),
            alen == b@.len(),
            forall|j: int| 0 <= j < i ==> spec_upper_char(a@[j]) == spec_upper_char(b@[j]),
        decreases alen - i,
    {
        let ca = upper_char(a.get_char(i));
        let cb = upper_char(b.get_char(i));
        if ca != cb {
            proof {
                assert(spec_upper(a@)[i as int] != spec_upper(b@)[i as int]);
            }
            return false;
        }
        i += 1;
    }
    proof {
        assert(spec_upper(a@) =~= spec_upper(b@));
    }
    true
}

/// The characters of a string slice, gathered into a vector.
pub fn str_to_chars(s: &str) -> (r: Vec<char>)
    ensures
        r@ == s@,
{
    let len = s.unicode_len();
    let mut r: Vec<char> = Vec::new();
    let mut i: usize = 0;
    while i < len
        invariant
            0 <= i <= len,
            len == s@.len(),
            r@ == s@.take(i as int),
        decreases len - i,
    {
        r.push(s.get_char(i));
        proof {
            assert(r@ =~= s@.take(i as int + 1));
        }
        i += 1;
    }
    proof {
        assert(s@.take(len as int) =~= s@);
    }
    r
}

/// Builds a `String` whose characters are exactly those of the vector.
/// Relies on `core::iter::Iterator::collect` into a `String`, which appends
/// the characters of the iterator in order.
#[verifier::external_body]
pub fn chars_to_string(v: &Vec<char>) -> (r: String)
    ensures
        r@ == v@,
{
    v.iter().collect()
}

/// Appends the characters of `add` to `out`.
pub(crate) fn push_all(out: &mut Vec<char>, add: &Vec<char>)
    ensures
        final(out)@ == old(out)@ + add@,
{
    let mut i: usize = 0;
    while i < add.len()
        invariant
            0 <= i <= add@.len(),
            out@ == old(out)@ + add@.take(i as int),
        decreases add@.len() - i,
    {
        out.push(add[i]);
        proof {
            assert(out@ =~= old(out)@ + add@.take(i as int + 1));
        }
        i += 1;
    }
    proof {
        assert(old(out)@ + add@.take(add@.len() as int) =~= old(out)@ + add@);
    }
}

/// Decimal digits of `n`, most significant first.
pub open spec fn spec_dec_digits(n: nat) -> Seq<char>
    decreases n,
{
    if n < 10 {
        seq![spec_digit_char(n)]
    } else {
        spec_dec_digits(n / 10).push(spec_digit_char(n % 10))
    }
}

/// The character for one decimal digit.
pub open spec fn spec_digit_char(d: nat) -> char {
    ((d + 0x30) as u8) as char
}

fn digit_char(d: u32) -> (r: char)
    requires
        d < 10,
    ensures
        r == spec_digit_char(d as nat),
{
    ((d + 0x30) as u8) as char
}

/// Renders `n` in decimal, most significant digit first.
pub fn dec_chars(n: u32) -> (r: Vec<char>)
    ensures
        r@ == spec_dec_digits(n as nat),
    decreases n,
{
    if n < 10 {
        let mut r: Vec<char> = Vec::new();
        r.push(digit_char(n));
        proof {
            assert(r@ =~= spec_dec_digits(n as nat));
        }
        r
    } else {
        let mut r = dec_chars(n / 10);
        r.push(digit_char(n % 10));
        r
    }
}

/// Value of an all-digit string read as a decimal number; `None` when the
/// string is empty, holds a non-digit, or exceeds `u8`.
pub open spec fn spec_parse_u8(s: Seq<char>) -> Option<u8>
    decreases s.len(),
{
    if s.len() == 0 {
        None
    } else if s.len() == 1 {
        spec_char_digit(s[0])
    } else {
        match (spec_parse_u8(s.drop_last()), spec_char_digit(s.last())) {
            (Some(hi), Some(d)) => if hi <= 25 && hi * 10 + d <= 255 {
                Some((hi * 10 + d) as u8)
            } else {
                None
            },
            _ => None,
        }
    }
}

/// The numeric value of one decimal digit character.
pub open spec fn spec_char_digit(c: char) -> Option<u8> {
    if '0' <= c <= '9' {
        Some(((c as u8) - 0x30) as u8)
    } else {
        None
    }
}

fn char_digit(c: char) -> (r: Option<u8>)
    ensures
        r == spec_char_digit(c),
{
    if '0' <= c && c <= '9' {
        Some((c as u8) - 0x30)
    } else {
        None
    }
}

/// Parses an all-digit string as a `u8`.
pub fn parse_u8(s: &Vec<char>) -> (r: Option<u8>)
    ensures
        r == spec_parse_u8(s@),
{
    if s.len() == 0 {
        return None;
    }
    let mut acc: Option<u8> = char_digit(s[0]);
    let mut i: usize = 1;
    while i < s.len()
        invariant
            1 <= i <= s@.len(),
            acc == spec_parse_u8(s@.take(i as int)),
        decreases s@.len() - i,
    {
        proof {
            assert(s@.take(i as int + 1).drop_last() =~= s@.take(i as int));
            assert(s@.take(i as int + 1).last() == s@[i as int]);
        }
        acc = match (acc, char_digit(s[i])) {
            (Some(hi), Some(d)) => {
                if hi <= 25 && (hi as u32) * 10 + (d as u32) <= 255 {
                    Some(hi * 10 + d)
                } else {
                    None
                }
            },
            _ => None,
        };
        i += 1;
    }
    proof {
        assert(s@.take(s@.len() as int) =~= s@);
    }
    acc
}

} // verus!
