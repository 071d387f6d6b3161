//! Verified parsing of decimal integers from environment variable values.
//!
//! A value is accepted exactly when it consists of an optional leading `'+'`
//! followed by one or more ASCII digits, and the denoted number fits in the
//! target integer type. This matches how the standard library parses unsigned
//! integers from strings.

use vstd::prelude::*;
use vstd::string::StrSliceExecFns;

verus! {

/// Whether `c` is an ASCII decimal digit.
pub open spec fn is_digit(c: char) -> bool {
    '0' <= c && c <= '9'
}

/// The numeric value of a single decimal digit.
pub open spec fn digit_value(c: char) -> int {
    c as int - '0' as int
}

/// Whether every character of `s` is a decimal digit.
pub open spec fn all_digits(s: Seq<char>) -> bool {
    forall|i: int| 0 <= i < s.len() ==> is_digit(#[trigger] s[i])
}

/// The number denoted by a sequence of decimal digits, most significant first.
pub open spec fn digits_value(s: Seq<char>) -> int
    decreases s.len(),
{
    if s.len() == 0 {
        0
    } else {
        digits_value(s.drop_last()) * 10 + digit_value(s.last())
    }
}

/// The digits of a decimal string: everything after an optional leading `'+'`.
pub open spec fn digits_part(s: Seq<char>) -> Seq<char> {
    if s.len() > 0 && s[0] == '+' {
        s.subrange(1, s.len() as int)
    } else {
        s
    }
}

/// Whether `s` is a well-formed unsigned decimal string: an optional leading
/// `'+'` followed by one or more digits.
pub open spec fn is_decimal_string(s: Seq<char>) -> bool {
    digits_part(s).len() > 0 && all_digits(digits_part(s))
}

/// The number denoted by a well-formed unsigned decimal string.
pub open spec fn decimal_value(s: Seq<char>) -> int {
    digits_value(digits_part(s))
}

/// The value of a digit string is never negative.
proof fn lemma_digits_value_nonneg(s: Seq<char>)
    requires
        all_digits(s),
    ensures
        digits_value(s) >= 0,
    decreases s.len(),
{
    if s.len() > 0 {
        assert(all_digits(s.drop_last())) by {
            assert(forall|i: int|
                0 <= i < s.drop_last().len() ==> is_digit(#[trigger] s.drop_last()[i]));
        }
        lemma_digits_value_nonneg(s.drop_last());
    }
}

/// Extending a digit string by one digit multiplies its value by ten and adds
/// the new digit.
proof fn lemma_digits_value_step(s: Seq<char>, i: int)
    requires
        0 <= i < s.len(),
    ensures
        digits_value(s.subrange(0, i + 1)) == digits_value(s.subrange(0, i)) * 10 + digit_value(
            s[i],
        ),
{
    let ext = s.subrange(0, i + 1);
    assert(ext.drop_last() =~= s.subrange(0, i));
    assert(ext.last() == s[i]);
}

/// A digit string is worth at least any of its prefixes.
proof fn lemma_digits_value_prefix(s: Seq<char>, i: int)
    requires
        all_digits(s),
        0 <= i <= s.len(),
    ensures
        digits_value(s) >= digits_value(s.subrange(0, i)),
    decreases s.len() - i,
{
    if i == s.len() {
        assert(s.subrange(0, i) =~= s);
    } else {
        lemma_digits_value_step(s, i);
        let prefix = s.subrange(0, i);
        assert(all_digits(prefix)) by {
            assert(forall|j: int| 0 <= j < prefix.len() ==> is_digit(#[trigger] prefix[j]));
        }
        lemma_digits_value_nonneg(prefix);
        assert(digits_value(s.subrange(0, i + 1)) >= digits_value(prefix));
        lemma_digits_value_prefix(s, i + 1);
    }
}

/// Parses an unsigned decimal string into a `u64`.
///
/// Returns `Some` exactly when the string is well formed and its value fits.
pub fn parse_u64(s: &str) -> (r: Option<u64>)
    ensures
        r is Some <==> is_decimal_string(s@) && decimal_value(s@) <= u64::MAX,
        r matches Some(v) ==> v == decimal_value(s@),
{
    let n = s.unicode_len();
    let start: usize = if n > 0 && s.get_char(0) == '+' {
        1
    } else {
        0
    };
    let ghost digits = digits_part(s@);
    proof {
        assert(digits =~= s@.subrange(start as int, n as int));
    }
    if start >= n {
        return None;
    }
    let mut acc: u64 = 0;
    let mut i: usize = start;
    while i < n
        invariant
            start <= i <= n,
            n == s@.len(),
            digits == digits_part(s@),
            digits == s@.subrange(start as int, n as int),
            all_digits(s@.subrange(start as int, i as int)),
            acc == digits_value(s@.subrange(start as int, i as int)),
        decreases n - i,
    {
        let c = s.get_char(i);
        if c < '0' || c > '9' {
            proof {
                assert(digits[i - start] == c);
                assert(!all_digits(digits));
            }
            return None;
        }
        let d = (c as u32 - 48) as u64;
        proof {
            assert(d == digit_value(c));
            assert(digits.subrange(0, i - start + 1) =~= s@.subrange(
                start as int,
                i + 1 as int,
            ));
            assert(digits.subrange(0, i - start) =~= s@.subrange(start as int, i as int));
            lemma_digits_value_step(digits, i - start);
        }
        if acc > (u64::MAX - d) / 10 {
            proof {
                assert(digits_value(digits.subrange(0, i - start + 1)) == acc * 10 + d);
                assert(acc * 10 + d > u64::MAX) by (nonlinear_arith)
                    requires
                        acc > (u64::MAX - d) / 10,
                        0 <= d <= 9,
                ;
                if all_digits(digits) {
                    lemma_digits_value_prefix(digits, i - start + 1);
                }
            }
            return None;
        }
        proof {
            assert(acc * 10 + d <= u64::MAX) by (nonlinear_arith)
                requires
                    acc <= (u64::MAX - d) / 10,
                    0 <= d <= 9,
            ;
        }
        acc = acc * 10 + d;
        i = i + 1;
    }
    proof {
        assert(s@.subrange(start as int, i as int) =~= digits);
    }
    Some(acc)
}

/// Parses an unsigned decimal string into a `u32`.
///
/// Returns `Some` exactly when the string is well formed and its value fits.
pub fn parse_u32(s: &str) -> (r: Option<u32>)
    ensures
        r is Some <==> is_decimal_string(s@) && decimal_value(s@) <= u32::MAX,
        r matches Some(v) ==> v == decimal_value(s@),
{
    match parse_u64(s) {
        Some(v) if v <= u32::MAX as u64 => Some(v as u32),
        _ => None,
    }
}

/// Parses an unsigned decimal string into a `usize`.
///
/// Returns `Some` exactly when the string is well formed and its value fits.
pub fn parse_usize(s: &str) -> (r: Option<usize>)
    ensures
        r is Some <==> is_decimal_string(s@) && decimal_value(s@) <= usize::MAX,
        r matches Some(v) ==> v == decimal_value(s@),
{
    match parse_u64(s) {
        Some(v) if v <= usize::MAX as u64 => Some(v as usize),
        _ => None,
    }
}

} // verus!
