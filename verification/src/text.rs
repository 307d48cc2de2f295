//! Character-level helpers used while interpreting configuration text:
//! ASCII-case-insensitive comparison and decimal parsing, both verified
//! against exact specifications over character sequences.

use crate::config::DEFAULT_BAUD;
use vstd::prelude::*;
use vstd::string::StrSliceExecFns;

verus! {

/// The code point of `c` with ASCII upper-case letters folded to lower case.
pub open spec fn lower_code(c: char) -> u32 {
    if 65 <= c as u32 && c as u32 <= 90 {
        (c as u32 + 32) as u32
    } else {
        c as u32
    }
}

/// Two character sequences are equal up to ASCII case.
pub open spec fn eq_ignore_ascii_case(a: Seq<char>, b: Seq<char>) -> bool {
    &&& a.len() == b.len()
    &&& forall|i: int| 0 <= i < a.len() ==> lower_code(a[i]) == lower_code(b[i])
}

fn lower_code_exec(c: char) -> (r: u32)
    ensures
        r == lower_code(c),
{
    let u = c as u32;
    if 65 <= u && u <= 90 {
        u + 32
    } else {
        u
    }
}

/// Compares two strings for equality up to ASCII case.
pub fn str_eq_ignore_case(a: &str, b: &str) -> (r: bool)
    ensures
        r == eq_ignore_ascii_case(a@, b@),
{
    let a_len = a.unicode_len();
    let b_len = b.unicode_len();
    if a_len != b_len {
        return false;
    }
    let mut i: usize = 0;
    while i < a_len
        invariant
            0 <= i <= a_len,
            a_len == a@.len(),
            a_len == b_len,
            b_len == b@.len(),
            forall|j: int| 0 <= j < i ==> lower_code(a@[j]) == lower_code(b@[j]),
        decreases a_len - i,
    {
        let ca = a.get_char(i);
        let cb = b.get_char(i);
        if lower_code_exec(ca) != lower_code_exec(cb) {
            return false;
        }
        i = i + 1;
    }
    true
}

/// Compares two strings for exact equality, character by character.
pub fn str_equal(a: &str, b: &str) -> (r: bool)
    ensures
        r == (a@ == b@),
{
    let a_len = a.unicode_len();
    let b_len = b.unicode_len();
    if a_len != b_len {
        proof {
            assert(a@ != b@);
        }
        return false;
    }
    let mut i: usize = 0;
    while i < a_len
        invariant
            0 <= i <= a_len,
            a_len == a@.len(),
            a_len == b_len,
            b_len == b@.len(),
            forall|j: int| 0 <= j < i ==> a@[j] == b@[j],
        decreases a_len - i,
    {
        if a.get_char(i) != b.get_char(i) {
            return false;
        }
        i = i + 1;
    }
    proof {
        assert(a@ =~= b@);
    }
    true
}

/// `c` is one of the decimal digits `0` through `9`.
pub open spec fn is_digit_char(c: char) -> bool {
    48 <= c as u32 && c as u32 <= 57
}

/// The numeric value of a digit character; zero for anything else.
pub open spec fn digit_value(c: char) -> nat {
    if is_digit_char(c) {
        (c as u32 - 48) as nat
    } else {
        0
    }
}

/// Every character of `s` is a decimal digit.
pub open spec fn all_digits(s: Seq<char>) -> bool {
    forall|i: int| 0 <= i < s.len() ==> is_digit_char(s[i])
}

/// The number denoted by `s` read as a base-ten numeral.
pub open spec fn decimal_value(s: Seq<char>) -> nat
    decreases s.len(),
{
    if s.len() == 0 {
        0
    } else {
        decimal_value(s.drop_last()) * 10 + digit_value(s.last())
    }
}

/// What parsing `s` as a `u32` numeral yields: its value when `s` is a
/// non-empty string of digits denoting a number that fits, nothing
/// otherwise.
pub open spec fn parsed_u32(s: Seq<char>) -> Option<u32> {
    if s.len() > 0 && all_digits(s) && decimal_value(s) <= u32::MAX {
        Some(decimal_value(s) as u32)
    } else {
        None
    }
}

/// A numeral never denotes less than any of its prefixes.
proof fn lemma_decimal_prefix_le(s: Seq<char>, i: int)
    requires
        0 <= i <= s.len(),
    ensures
        decimal_value(s.subrange(0, i)) <= decimal_value(s),
    decreases s.len(),
{
    if i == s.len() {
        assert(s.subrange(0, i) =~= s);
    } else {
        let dl = s.drop_last();
        lemma_decimal_prefix_le(dl, i);
        assert(s.subrange(0, i) =~= dl.subrange(0, i));
        assert(decimal_value(dl) * 10 >= decimal_value(dl));
    }
}

/// Parses `s` as a decimal `u32`, exactly as [`parsed_u32`] describes.
pub fn parse_u32_digits(s: &str) -> (r: Option<u32>)
    ensures
        r == parsed_u32(s@),
{
    let n = s.unicode_len();
    if n == 0 {
        return None;
    }
    let mut value: u32 = 0;
    let mut i: usize = 0;
    while i < n
        invariant
            0 <= i <= n,
            n == s@.len(),
            n > 0,
            all_digits(s@.subrange(0, i as int)),
            value == decimal_value(s@.subrange(0, i as int)),
        decreases n - i,
    {
        let c = s.get_char(i);
        let u = c as u32;
        if u < 48 || u > 57 {
            assert(!is_digit_char(s@[i as int]));
            return None;
        }
        let d = u - 48;
        proof {
            assert(s@.subrange(0, i + 1).drop_last() =~= s@.subrange(0, i as int));
            assert(s@.subrange(0, i + 1).last() == s@[i as int]);
        }
        if value > 429496729 || (value == 429496729 && d > 5) {
            proof {
                assert(decimal_value(s@.subrange(0, i + 1)) > u32::MAX);
                lemma_decimal_prefix_le(s@, i + 1);
            }
            return None;
        }
        value = value * 10 + d;
        i = i + 1;
    }
    proof {
        assert(s@.subrange(0, n as int) =~= s@);
    }
    Some(value)
}

/// The baud rate a configured textual value denotes: its numeric value
/// when it is a well-formed, non-zero `u32` numeral, and the default
/// rate when it is malformed or zero.
pub open spec fn normalized_baud(s: Seq<char>) -> u32 {
    match parsed_u32(s) {
        Some(n) => if n == 0 {
            DEFAULT_BAUD
        } else {
            n
        },
        None => DEFAULT_BAUD,
    }
}

/// Reads a configured baud-rate text, normalizing malformed or zero
/// values to the default rate.
pub fn normalize_baud_text(s: &str) -> (r: u32)
    ensures
        r == normalized_baud(s@),
        r > 0,
{
    match parse_u32_digits(s) {
        Some(n) => if n == 0 {
            DEFAULT_BAUD
        } else {
            n
        },
        None => DEFAULT_BAUD,
    }
}

} // verus!
