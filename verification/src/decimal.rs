//! Reading non-negative decimal integers out of header strings.
//!
//! Rate-limit telemetry arrives as text. These functions give that text an
//! exact numeric meaning: a non-empty string of decimal digits denotes its
//! value, anything else denotes nothing, and the quote pipeline falls back
//! to zero where a header carries no usable number.

use vstd::prelude::*;

verus! {

/// A decimal digit character.
pub open spec fn is_dec_digit(c: char) -> bool {
    '0' <= c && c <= '9'
}

/// The numeric value of one digit character.
pub open spec fn digit_val(c: char) -> int {
    c as int - '0' as int
}

/// Every character of `s` is a decimal digit.
pub open spec fn all_dec_digits(s: Seq<char>) -> bool {
    forall|i: int| 0 <= i < s.len() ==> is_dec_digit(#[trigger] s[i])
}

/// The value of a digit string, most significant digit first.
pub open spec fn dec_value(s: Seq<char>) -> int
    decreases s.len(),
{
    if s.len() == 0 {
        0
    } else {
        dec_value(s.drop_last()) * 10 + digit_val(s.last())
    }
}

/// What `s` denotes as a non-negative decimal integer: the digits' value
/// for a non-empty all-digit string, nothing otherwise.
pub open spec fn parse_dec(s: Seq<char>) -> Option<int> {
    if s.len() > 0 && all_dec_digits(s) {
        Some(dec_value(s))
    } else {
        None
    }
}

/// The `u32` a header string stands for, with zero where it holds no
/// parseable value in range.
pub open spec fn dec_u32_or_zero(s: Seq<char>) -> int {
    match parse_dec(s) {
        Some(v) => if v <= u32::MAX { v } else { 0 },
        None => 0,
    }
}

/// The `u128` a header string stands for, with zero where it holds no
/// parseable value in range.
pub open spec fn dec_u128_or_zero(s: Seq<char>) -> int {
    match parse_dec(s) {
        Some(v) => if v <= u128::MAX { v } else { 0 },
        None => 0,
    }
}

proof fn lemma_dec_value_nonneg(s: Seq<char>)
    requires
        all_dec_digits(s),
    ensures
        dec_value(s) >= 0,
    decreases s.len(),
{
    if s.len() > 0 {
        assert(all_dec_digits(s.drop_last()));
        lemma_dec_value_nonneg(s.drop_last());
    }
}

/// A digit string's value never shrinks as digits are appended.
proof fn lemma_dec_value_prefix_mono(s: Seq<char>, i: int, j: int)
    requires
        all_dec_digits(s),
        0 <= i <= j <= s.len(),
    ensures
        dec_value(s.take(i)) <= dec_value(s.take(j)),
    decreases j - i,
{
    if i < j {
        lemma_dec_value_prefix_mono(s, i, j - 1);
        let t = s.take(j);
        assert(t.drop_last() =~= s.take(j - 1));
        assert(all_dec_digits(t.drop_last()));
        lemma_dec_value_nonneg(t.drop_last());
        assert(dec_value(t) == dec_value(t.drop_last()) * 10 + digit_val(t.last()));
    }
}

/// Parses a non-empty all-digit string into its value; reports nothing for
/// any other string and for values beyond `u128`.
pub fn parse_u128(s: &str) -> (r: Option<u128>)
    ensures
        match r {
            Some(v) => parse_dec(s@) == Some(v as int),
            None => match parse_dec(s@) {
                Some(v) => v > u128::MAX,
                None => true,
            },
        },
{
    let n = s.unicode_len();
    if n == 0 {
        return None;
    }
    let mut acc: u128 = 0;
    let mut i: usize = 0;
    while i < n
        invariant
            0 <= i <= n,
            n == s@.len(),
            all_dec_digits(s@.take(i as int)),
            acc == dec_value(s@.take(i as int)),
        decreases n - i,
    {
        let c = s.get_char(i);
        if c < '0' || c > '9' {
            assert(!is_dec_digit(s@[i as int]));
            return None;
        }
        let d: u32 = c as u32 - '0' as u32;
        proof {
            assert(s@.take(i + 1).drop_last() =~= s@.take(i as int));
            assert(s@.take(i + 1).last() == s@[i as int]);
            assert(dec_value(s@.take(i + 1)) == acc * 10 + digit_val(s@[i as int]));
        }
        let stepped = match acc.checked_mul(10) {
            Some(m) => m.checked_add(d as u128),
            None => None,
        };
        match stepped {
            Some(v) => {
                acc = v;
            },
            None => {
                proof {
                    assert(dec_value(s@.take(i + 1)) > u128::MAX);
                    if parse_dec(s@) is Some {
                        lemma_dec_value_prefix_mono(s@, i + 1, s@.len() as int);
                        assert(s@.take(s@.len() as int) =~= s@);
                    }
                }
                return None;
            },
        }
        i = i + 1;
    }
    proof {
        assert(s@.take(n as int) =~= s@);
    }
    Some(acc)
}

/// The `u32` denoted by `s`, with zero for anything unparseable or out of
/// range — the documented fallback for rate-limit headers.
pub fn parse_u32_or_zero(s: &str) -> (r: u32)
    ensures
        r == dec_u32_or_zero(s@),
{
    match parse_u128(s) {
        Some(v) => {
            if v <= u32::MAX as u128 {
                v as u32
            } else {
                0
            }
        },
        None => 0,
    }
}

/// The `u128` denoted by `s`, with zero for anything unparseable or out of
/// range — the documented fallback for rate-limit headers.
pub fn parse_u128_or_zero(s: &str) -> (r: u128)
    ensures
        r == dec_u128_or_zero(s@),
{
    match parse_u128(s) {
        Some(v) => v,
        None => 0,
    }
}

} // verus!
