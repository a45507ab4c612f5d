//! Wildcard string matching used by both host and header validation.
//!
//! A pattern either names a string exactly (compared ASCII-case-insensitively)
//! or starts with the marker `*.`, in which case it accepts every candidate
//! that ends, ASCII-case-insensitively, with `.` followed by the remainder of
//! the pattern.  `*.example.com` accepts `api.example.com` but not the bare
//! `example.com`, and a `*` anywhere else is an ordinary character.

use vstd::prelude::*;

verus! {

/// The code point of `c` with an ASCII upper-case letter folded to lower case.
pub open spec fn lower(c: char) -> u32 {
    if 65 <= c as u32 && c as u32 <= 90 {
        (c as u32 + 32) as u32
    } else {
        c as u32
    }
}

/// Two character sequences are equal up to ASCII case.
pub open spec fn chars_eq_ci(a: Seq<char>, b: Seq<char>) -> bool {
    a.len() == b.len() && forall|i: int| 0 <= i < a.len() ==> lower(a[i]) == lower(b[i])
}

/// `s` ends with `suffix`, up to ASCII case.
pub open spec fn ends_with_ci(s: Seq<char>, suffix: Seq<char>) -> bool {
    suffix.len() <= s.len() && chars_eq_ci(
        s.subrange(s.len() - suffix.len(), s.len() as int),
        suffix,
    )
}

/// The pattern starts with the `*.` wildcard marker.
pub open spec fn is_wildcard(pattern: Seq<char>) -> bool {
    pattern.len() >= 2 && pattern[0] == '*' && pattern[1] == '.'
}

/// What `matches` decides: a wildcard pattern `*.rest` accepts candidates that
/// end with `.rest` (so sub-domains of `rest`, never the bare `rest` itself);
/// any other pattern accepts exactly its ASCII-case-insensitive equals.
pub open spec fn spec_matches(pattern: Seq<char>, candidate: Seq<char>) -> bool {
    if is_wildcard(pattern) {
        ends_with_ci(candidate, pattern.subrange(1, pattern.len() as int))
    } else {
        chars_eq_ci(pattern, candidate)
    }
}

/// The code point of `c` folded to ASCII lower case.
pub fn lower_char(c: char) -> (r: u32)
    ensures
        r == lower(c),
{
    let u = c as u32;
    if 65 <= u && u <= 90 {
        u + 32
    } else {
        u
    }
}

/// Exact ASCII-case-insensitive equality of two strings.
pub fn str_eq_ignore_case(a: &str, b: &str) -> (r: bool)
    ensures
        r == chars_eq_ci(a@, b@),
{
    let alen = a.unicode_len();
    let blen = b.unicode_len();
    if alen != blen {
        return false;
    }
    let mut i: usize = 0;
    while i < alen
        invariant
            alen == a@.len(),
            blen == b@.len(),
            alen == blen,
            0 <= i <= alen,
            forall|j: int| 0 <= j < i ==> lower(a@[j]) == lower(b@[j]),
        decreases alen - i,
    {
        if lower_char(a.get_char(i)) != lower_char(b.get_char(i)) {
            return false;
        }
        i += 1;
    }
    true
}

/// Exact (case-sensitive) equality of two strings.
pub fn str_eq(a: &str, b: &str) -> (r: bool)
    ensures
        r == (a@ == b@),
{
    let alen = a.unicode_len();
    let blen = b.unicode_len();
    if alen != blen {
        return false;
    }
    let mut i: usize = 0;
    while i < alen
        invariant
            alen == a@.len(),
            blen == b@.len(),
            alen == blen,
            0 <= i <= alen,
            forall|j: int| 0 <= j < i ==> a@[j] == b@[j],
        decreases alen - i,
    {
        if a.get_char(i) != b.get_char(i) {
            return false;
        }
        i += 1;
    }
    proof {
        assert(a@ =~= b@);
    }
    true
}

/// Decide whether `candidate` is accepted by `pattern`.
///
/// Total over arbitrary inputs; compares ASCII-case-insensitively and treats a
/// leading `*.` as "any sub-domain of the remainder".
pub fn matches(pattern: &str, candidate: &str) -> (r: bool)
    ensures
        r == spec_matches(pattern@, candidate@),
{
    let plen = pattern.unicode_len();
    let clen = candidate.unicode_len();
    if plen >= 2 && pattern.get_char(0) == '*' && pattern.get_char(1) == '.' {
        let slen = plen - 1;
        if clen < slen {
            return false;
        }
        let off = clen - slen;
        let ghost suffix = pattern@.subrange(1, plen as int);
        let ghost tail = candidate@.subrange(off as int, clen as int);
        let mut i: usize = 0;
        while i < slen
            invariant
                plen == pattern@.len(),
                clen == candidate@.len(),
                2 <= plen,
                slen == plen - 1,
                slen <= clen,
                off == clen - slen,
                0 <= i <= slen,
                suffix == pattern@.subrange(1, plen as int),
                tail == candidate@.subrange(off as int, clen as int),
                forall|j: int| 0 <= j < i ==> lower(#[trigger] tail[j]) == lower(suffix[j]),
            decreases slen - i,
        {
            proof {
                assert(tail[i as int] == candidate@[off + i]);
                assert(suffix[i as int] == pattern@[1 + i]);
            }
            if lower_char(candidate.get_char(off + i)) != lower_char(pattern.get_char(1 + i)) {
                return false;
            }
            i += 1;
        }
        true
    } else {
        str_eq_ignore_case(pattern, candidate)
    }
}

} // verus!
