//! Reading a length from what the user typed.

use vstd::prelude::*;
use crate::classes::digit_ascii;
use crate::generator::chars_of;

verus! {

/// The text is not a length: it is empty, holds something other than
/// decimal digits after an optional `+`, or names a number that does not fit
/// in `usize`.
#[derive(Clone, Copy, Debug, PartialEq, Eq, Structural)]
pub struct InputParseError {}

/// Every character is one of `0` to `9`.
pub open spec fn all_digits(s: Seq<char>) -> bool {
    forall|i: int| 0 <= i < s.len() ==> digit_ascii(#[trigger] s[i])
}

/// The number that a digit stands for.
pub open spec fn digit_value(c: char) -> nat {
    (c as nat - '0' as nat) as nat
}

/// The number that a sequence of decimal digits stands for, the first digit
/// being the most significant. The empty sequence stands for 0.
pub open spec fn decimal_value(s: Seq<char>) -> nat
    decreases s.len(),
{
    if s.len() == 0 {
        0
    } else {
        decimal_value(s.drop_last()) * 10 + digit_value(s.last())
    }
}

/// The text without the `+` that may stand in front of the digits.
pub open spec fn unsigned(s: Seq<char>) -> Seq<char> {
    if s.len() > 0 && s[0] == '+' {
        s.drop_first()
    } else {
        s
    }
}

/// The length that a text stands for, if it stands for one: an optional `+`,
/// then one or more decimal digits and nothing else, no blank either, naming
/// a number of at most `usize::MAX`. Leading zeros are accepted, and so is
/// 0.
pub open spec fn length_of(s: Seq<char>) -> Option<usize> {
    let d = unsigned(s);
    if d.len() > 0 && all_digits(d) && decimal_value(d) <= usize::MAX {
        Some(decimal_value(d) as usize)
    } else {
        None
    }
}

/// A number does not get smaller when digits are appended: what the first
/// `k` digits stand for is at most what all of them stand for.
pub proof fn lemma_decimal_prefix(s: Seq<char>, k: int)
    requires
        0 <= k <= s.len(),
    ensures
        decimal_value(s.take(k)) <= decimal_value(s),
    decreases s.len() - k,
{
    if k == s.len() {
        assert(s.take(k) =~= s);
    } else {
        lemma_decimal_prefix(s, k + 1);
        assert(s.take(k + 1).drop_last() =~= s.take(k));
    }
}

/// Reads a length: the number that `input` stands for, or an error if it
/// stands for none.
pub fn parse_length(input: &str) -> (r: Result<usize, InputParseError>)
    ensures
        r == match length_of(input@) {
            Some(n) => Ok::<usize, InputParseError>(n),
            None => Err::<usize, InputParseError>(InputParseError {  }),
        },
{
    let chars = chars_of(input);
    let n = chars.len();
    let start: usize = if n > 0 && chars[0] == '+' {
        1
    } else {
        0
    };
    let ghost d = unsigned(input@);
    assert(d =~= input@.subrange(start as int, n as int));
    if start == n {
        return Err(InputParseError {  });
    }
    let mut value: usize = 0;
    let mut k: usize = start;
    while k < n
        invariant
            start <= k <= n,
            n == chars@.len(),
            chars@ == input@,
            d == input@.subrange(start as int, n as int),
            d == unsigned(input@),
            all_digits(d.take(k - start)),
            value == decimal_value(d.take(k - start)),
        decreases n - k,
    {
        let c = chars[k];
        if !('0' <= c && c <= '9') {
            assert(!digit_ascii(d[k - start]));
            return Err(InputParseError {  });
        }
        let digit: usize = (c as u8 - '0' as u8) as usize;
        proof {
            assert(d.take(k - start + 1).drop_last() =~= d.take(k - start));
            assert(d.take(k - start + 1).last() == c);
            assert(digit == digit_value(c));
            assert(decimal_value(d.take(k - start + 1)) == value * 10 + digit);
            lemma_decimal_prefix(d, k - start + 1);
        }
        if value > (usize::MAX - digit) / 10 {
            return Err(InputParseError {  });
        }
        value = value * 10 + digit;
        k = k + 1;
    }
    assert(d.take(n - start) =~= d);
    Ok(value)
}

} // verus!
