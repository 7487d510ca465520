//! Stripping characters, prefixes and suffixes from strings.

use vstd::prelude::*;
use vstd::string::*;
use crate::column::{broadcast_len, broadcast_rows, row_of, StringColumn};
use crate::error::{Failure, Reason, TemporalError};

verus! {

/// The characters with the Unicode property White_Space.
pub open spec fn is_white_space(c: char) -> bool {
    let n = c as u32;
    ||| 0x0009 <= n <= 0x000D
    ||| n == 0x0020
    ||| n == 0x0085
    ||| n == 0x00A0
    ||| n == 0x1680
    ||| 0x2000 <= n <= 0x200A
    ||| n == 0x2028
    ||| n == 0x2029
    ||| n == 0x202F
    ||| n == 0x205F
    ||| n == 0x3000
}

/// Whether a character is stripped: it occurs in the pattern, or, without
/// a pattern, it is white space.
pub open spec fn is_stripped(c: char, pat: Option<Seq<char>>) -> bool {
    match pat {
        Some(p) => p.contains(c),
        None => is_white_space(c),
    }
}

/// The first position at or after `pos` whose character is not stripped.
pub open spec fn lead_end(s: Seq<char>, pos: int, pat: Option<Seq<char>>) -> int
    decreases s.len() - pos,
{
    if 0 <= pos < s.len() && is_stripped(s[pos], pat) {
        lead_end(s, pos + 1, pat)
    } else {
        pos
    }
}

/// The end of the text that is left when stripped characters are taken
/// from the end of `s[lo..end]`.
pub open spec fn trail_start(s: Seq<char>, lo: int, end: int, pat: Option<Seq<char>>) -> int
    decreases end - lo,
{
    if lo < end <= s.len() && is_stripped(s[end - 1], pat) {
        trail_start(s, lo, end - 1, pat)
    } else {
        end
    }
}

/// The text without its stripped characters at the start, at the end, or
/// at both.
pub open spec fn stripped(s: Seq<char>, pat: Option<Seq<char>>, at_start: bool, at_end: bool) -> Seq<
    char,
> {
    let from = if at_start { lead_end(s, 0, pat) } else { 0 };
    let to = if at_end { trail_start(s, from, s.len() as int, pat) } else { s.len() as int };
    s.subrange(from, to)
}

/// The text without the prefix, where it starts with it; else the text.
pub open spec fn without_prefix(s: Seq<char>, prefix: Seq<char>) -> Seq<char> {
    if prefix.is_prefix_of(s) {
        s.subrange(prefix.len() as int, s.len() as int)
    } else {
        s
    }
}

/// The text without the suffix, where it ends with it; else the text.
pub open spec fn without_suffix(s: Seq<char>, suffix: Seq<char>) -> Seq<char> {
    if suffix.is_suffix_of(s) {
        s.subrange(0, s.len() - suffix.len())
    } else {
        s
    }
}

/// The characters of an optional string.
pub open spec fn chars_of(s: Option<&str>) -> Option<Seq<char>> {
    match s {
        Some(s) => Some(s@),
        None => None,
    }
}

/// Whether a character has the property White_Space.
pub fn white_space(c: char) -> (r: bool)
    ensures
        r == is_white_space(c),
{
    let n: u32 = c as u32;
    (0x0009 <= n && n <= 0x000D) || n == 0x0020 || n == 0x0085 || n == 0x00A0 || n == 0x1680 || (
    0x2000 <= n && n <= 0x200A) || n == 0x2028 || n == 0x2029 || n == 0x202F || n == 0x205F || n
        == 0x3000
}

/// Whether a character is stripped.
pub fn strips(c: char, pat: Option<&str>) -> (r: bool)
    ensures
        r == is_stripped(c, chars_of(pat)),
{
    match pat {
        None => white_space(c),
        Some(p) => {
            let n: usize = p.unicode_len();
            let mut i: usize = 0;
            while i < n
                invariant
                    chars_of(pat) == Some(p@),
                    n == p@.len(),
                    i <= n,
                    forall|j: int| 0 <= j < i ==> p@[j] != c,
                decreases n - i,
            {
                if p.get_char(i) == c {
                    assert(p@[i as int] == c);
                    return true;
                }
                i = i + 1;
            }
            false
        },
    }
}

/// Strips characters from a string at its start, its end, or both.
pub fn strip<'a>(s: &'a str, pat: Option<&str>, at_start: bool, at_end: bool) -> (r: &'a str)
    ensures
        r@ == stripped(s@, chars_of(pat), at_start, at_end),
{
    let n: usize = s.unicode_len();
    let mut from: usize = 0;
    if at_start {
        while from < n && strips(s.get_char(from), pat)
            invariant
                n == s@.len(),
                from <= n,
                lead_end(s@, 0, chars_of(pat)) == lead_end(s@, from as int, chars_of(pat)),
            decreases n - from,
        {
            from = from + 1;
        }
    }
    let mut to: usize = n;
    if at_end {
        while to > from && strips(s.get_char(to - 1), pat)
            invariant
                n == s@.len(),
                from <= to <= n,
                trail_start(s@, from as int, n as int, chars_of(pat)) == trail_start(
                    s@,
                    from as int,
                    to as int,
                    chars_of(pat),
                ),
            decreases to - from,
        {
            to = to - 1;
        }
    }
    s.substring_char(from, to)
}

/// Whether `s` holds the characters of `part` from position `at` on.
fn holds_at(s: &str, part: &str, at: usize) -> (r: bool)
    requires
        at + part@.len() <= s@.len(),
    ensures
        r == (s@.subrange(at as int, at + part@.len()) == part@),
{
    let total: usize = s.unicode_len();
    let n: usize = part.unicode_len();
    let mut i: usize = 0;
    while i < n
        invariant
            n == part@.len(),
            total == s@.len(),
            at + n <= total,
            i <= n,
            forall|j: int| 0 <= j < i ==> s@[at + j] == part@[j],
        decreases n - i,
    {
        if s.get_char(at + i) != part.get_char(i) {
            assert(s@.subrange(at as int, at + part@.len())[i as int] != part@[i as int]);
            return false;
        }
        i = i + 1;
    }
    assert(s@.subrange(at as int, at + part@.len()) =~= part@);
    true
}

/// Strips the characters of `pat` from both ends of `s`; white space where
/// there is no pattern. A null string gives a null.
pub fn strip_chars_binary<'a>(opt_s: Option<&'a str>, opt_pat: Option<&str>) -> (r: Option<&'a str>)
    ensures
        chars_of(r) == match opt_s {
            Some(s) => Some(stripped(s@, chars_of(opt_pat), true, true)),
            None => None,
        },
{
    match opt_s {
        Some(s) => Some(strip(s, opt_pat, true, true)),
        None => None,
    }
}

/// Strips the characters of `pat` from the start of `s`; white space where
/// there is no pattern. A null string gives a null.
pub fn strip_chars_start_binary<'a>(opt_s: Option<&'a str>, opt_pat: Option<&str>) -> (r: Option<
    &'a str,
>)
    ensures
        chars_of(r) == match opt_s {
            Some(s) => Some(stripped(s@, chars_of(opt_pat), true, false)),
            None => None,
        },
{
    match opt_s {
        Some(s) => Some(strip(s, opt_pat, true, false)),
        None => None,
    }
}

/// Strips the characters of `pat` from the end of `s`; white space where
/// there is no pattern. A null string gives a null.
pub fn strip_chars_end_binary<'a>(opt_s: Option<&'a str>, opt_pat: Option<&str>) -> (r: Option<
    &'a str,
>)
    ensures
        chars_of(r) == match opt_s {
            Some(s) => Some(stripped(s@, chars_of(opt_pat), false, true)),
            None => None,
        },
{
    match opt_s {
        Some(s) => Some(strip(s, opt_pat, false, true)),
        None => None,
    }
}

/// Takes the prefix from the start of `s` where `s` starts with it. A null
/// string or a null prefix gives a null.
pub fn strip_prefix_binary<'a>(s: Option<&'a str>, prefix: Option<&str>) -> (r: Option<&'a str>)
    ensures
        chars_of(r) == match (s, prefix) {
            (Some(s), Some(p)) => Some(without_prefix(s@, p@)),
            _ => None,
        },
{
    match (s, prefix) {
        (Some(s), Some(p)) => {
            let n: usize = s.unicode_len();
            let k: usize = p.unicode_len();
            if k <= n && holds_at(s, p, 0) {
                Some(s.substring_char(k, n))
            } else {
                assert(s@.subrange(0, s@.len() as int) =~= s@);
                Some(s.substring_char(0, n))
            }
        },
        _ => None,
    }
}

/// Takes the suffix from the end of `s` where `s` ends with it. A null
/// string or a null suffix gives a null.
pub fn strip_suffix_binary<'a>(s: Option<&'a str>, suffix: Option<&str>) -> (r: Option<&'a str>)
    ensures
        chars_of(r) == match (s, suffix) {
            (Some(s), Some(p)) => Some(without_suffix(s@, p@)),
            _ => None,
        },
{
    match (s, suffix) {
        (Some(s), Some(p)) => {
            let n: usize = s.unicode_len();
            let k: usize = p.unicode_len();
            if k <= n && holds_at(s, p, n - k) {
                Some(s.substring_char(0, n - k))
            } else {
                assert(s@.subrange(0, s@.len() as int) =~= s@);
                Some(s.substring_char(0, n))
            }
        },
        _ => None,
    }
}

/// The five ways in which a column of strings is stripped.
#[derive(Clone, Copy, Debug, PartialEq, Eq, Structural)]
pub enum StripKind {
    Chars,
    CharsStart,
    CharsEnd,
    Prefix,
    Suffix,
}

/// The characters of an optional owned string.
pub open spec fn text_of(s: Option<String>) -> Option<Seq<char>> {
    match s {
        Some(s) => Some(s@),
        None => None,
    }
}

/// What one row gives: the string of the row stripped by the pattern of
/// the row. A null string gives a null; a null pattern stands for white
/// space where characters are stripped, and gives a null for a prefix or a
/// suffix.
pub open spec fn strip_value(kind: StripKind, s: Option<String>, pat: Option<String>) -> Option<
    Seq<char>,
> {
    match s {
        None => None,
        Some(s) => match kind {
            StripKind::Chars => Some(stripped(s@, text_of(pat), true, true)),
            StripKind::CharsStart => Some(stripped(s@, text_of(pat), true, false)),
            StripKind::CharsEnd => Some(stripped(s@, text_of(pat), false, true)),
            StripKind::Prefix => match pat {
                Some(p) => Some(without_prefix(s@, p@)),
                None => None,
            },
            StripKind::Suffix => match pat {
                Some(p) => Some(without_suffix(s@, p@)),
                None => None,
            },
        },
    }
}

/// What stripping a column returns: one string for each row, in a column
/// named as the input. A column of one row stands for every row; columns
/// that differ in length otherwise fail the call.
pub open spec fn is_stripped_column(
    r: Result<StringColumn, TemporalError>,
    kind: StripKind,
    ca: &StringColumn,
    pat: &StringColumn,
) -> bool {
    match broadcast_len(ca.values@.len(), pat.values@.len()) {
        None => r matches Err(e) && e@ == (Failure {
            reason: Reason::LengthMismatch,
            literal: Seq::empty(),
        }),
        Some(n) => {
            &&& r matches Ok(out)
            &&& out.values@.len() == n
            &&& out.name == ca.name
            &&& forall|i: int|
                0 <= i < n ==> text_of(#[trigger] out.values@[i]) == strip_value(
                    kind,
                    row_of(ca.values@, i),
                    row_of(pat.values@, i),
                )
        },
    }
}

/// A string slice of an optional owned string.
fn as_text(s: &Option<String>) -> (r: Option<&str>)
    ensures
        chars_of(r) == text_of(*s),
{
    match s {
        Some(s) => Some(s.as_str()),
        None => None,
    }
}

/// Strips one row.
fn strip_one(kind: StripKind, s: &Option<String>, pat: &Option<String>) -> (r: Option<String>)
    ensures
        text_of(r) == strip_value(kind, *s, *pat),
{
    let text = as_text(s);
    let pattern = as_text(pat);
    let slice: Option<&str> = match kind {
        StripKind::Chars => strip_chars_binary(text, pattern),
        StripKind::CharsStart => strip_chars_start_binary(text, pattern),
        StripKind::CharsEnd => strip_chars_end_binary(text, pattern),
        StripKind::Prefix => strip_prefix_binary(text, pattern),
        StripKind::Suffix => strip_suffix_binary(text, pattern),
    };
    match slice {
        Some(slice) => Some(slice.to_owned()),
        None => None,
    }
}

/// Strips a column of strings by a column of patterns, row by row.
pub fn strip_column(kind: StripKind, ca: &StringColumn, pat: &StringColumn) -> (r: Result<
    StringColumn,
    TemporalError,
>)
    ensures
        is_stripped_column(r, kind, ca, pat),
{
    let n: usize = match broadcast_rows(ca.values.len(), pat.values.len()) {
        Some(n) => n,
        None => {
            return Err(TemporalError::new(Reason::LengthMismatch));
        },
    };
    let mut out: Vec<Option<String>> = Vec::new();
    let mut i: usize = 0;
    while i < n
        invariant
            i <= n,
            broadcast_len(ca.values@.len(), pat.values@.len()) == Some(n as nat),
            out@.len() == i,
            forall|j: int|
                0 <= j < i ==> text_of(#[trigger] out@[j]) == strip_value(
                    kind,
                    row_of(ca.values@, j),
                    row_of(pat.values@, j),
                ),
        decreases n - i,
    {
        let s: &Option<String> = if ca.values.len() == 1 {
            &ca.values[0]
        } else {
            &ca.values[i]
        };
        let p: &Option<String> = if pat.values.len() == 1 {
            &pat.values[0]
        } else {
            &pat.values[i]
        };
        out.push(strip_one(kind, s, p));
        i = i + 1;
    }
    Ok(StringColumn { name: ca.name.clone(), values: out })
}

/// Strips the characters of the pattern from both ends of each string;
/// white space where the pattern is null.
pub fn strip_chars(ca: &StringColumn, pat: &StringColumn) -> (r: Result<StringColumn, TemporalError>)
    ensures
        is_stripped_column(r, StripKind::Chars, ca, pat),
{
    strip_column(StripKind::Chars, ca, pat)
}

/// Strips the characters of the pattern from the start of each string;
/// white space where the pattern is null.
pub fn strip_chars_start(ca: &StringColumn, pat: &StringColumn) -> (r: Result<
    StringColumn,
    TemporalError,
>)
    ensures
        is_stripped_column(r, StripKind::CharsStart, ca, pat),
{
    strip_column(StripKind::CharsStart, ca, pat)
}

/// Strips the characters of the pattern from the end of each string; white
/// space where the pattern is null.
pub fn strip_chars_end(ca: &StringColumn, pat: &StringColumn) -> (r: Result<
    StringColumn,
    TemporalError,
>)
    ensures
        is_stripped_column(r, StripKind::CharsEnd, ca, pat),
{
    strip_column(StripKind::CharsEnd, ca, pat)
}

/// Takes the prefix of the row from the start of each string that starts
/// with it; a null prefix gives a null.
pub fn strip_prefix(ca: &StringColumn, prefix: &StringColumn) -> (r: Result<
    StringColumn,
    TemporalError,
>)
    ensures
        is_stripped_column(r, StripKind::Prefix, ca, prefix),
{
    strip_column(StripKind::Prefix, ca, prefix)
}

/// Takes the suffix of the row from the end of each string that ends with
/// it; a null suffix gives a null.
pub fn strip_suffix(ca: &StringColumn, suffix: &StringColumn) -> (r: Result<
    StringColumn,
    TemporalError,
>)
    ensures
        is_stripped_column(r, StripKind::Suffix, ca, suffix),
{
    strip_column(StripKind::Suffix, ca, suffix)
}

} // verus!
