//! Unsigned numbers in positional notation, as the symbol file writes them.

use vstd::prelude::*;

verus! {

/// The value of `c` as a digit in the given radix, if it is one.
///
/// The digits are `0` to `9` and then the letters, in either case, as far as
/// the radix reaches.
pub open spec fn digit_value(c: char, radix: nat) -> Option<nat> {
    let u = c as u32;
    let value: int = if 0x30 <= u <= 0x39 {
        u - 0x30
    } else if 0x61 <= u <= 0x7A {
        u - 0x61 + 10
    } else if 0x41 <= u <= 0x5A {
        u - 0x41 + 10
    } else {
        -1
    };
    if 0 <= value < radix {
        Some(value as nat)
    } else {
        None
    }
}

/// Whether every character of `s` is a digit in the given radix.
pub open spec fn all_digits(s: Seq<char>, radix: nat) -> bool {
    forall|i: int| 0 <= i < s.len() ==> (#[trigger] digit_value(s[i], radix)) is Some
}

/// The number that the digits `s` denote, most significant digit first.
pub open spec fn digits_value(s: Seq<char>, radix: nat) -> nat
    decreases s.len(),
{
    if s.len() == 0 {
        0
    } else {
        digits_value(s.drop_last(), radix) * radix + digit_value(s.last(), radix).unwrap_or(0)
    }
}

/// The digits of a number: `s` itself, or what follows one leading `+`.
pub open spec fn digits_of(s: Seq<char>) -> Seq<char> {
    if s.len() > 0 && s[0] == '+' {
        s.subrange(1, s.len() as int)
    } else {
        s
    }
}

/// The number that `s` denotes in the given radix: an optional `+`, then at
/// least one digit and nothing but digits, with a value that fits in `usize`.
pub open spec fn parsed_usize(s: Seq<char>, radix: nat) -> Option<usize> {
    let digits = digits_of(s);
    if digits.len() > 0 && all_digits(digits, radix) && digits_value(digits, radix) <= usize::MAX {
        Some(digits_value(digits, radix) as usize)
    } else {
        None
    }
}

/// A number never gets smaller when more digits follow.
proof fn lemma_digits_value_grows(s: Seq<char>, k: int, radix: nat)
    requires
        0 <= k <= s.len(),
        radix >= 1,
    ensures
        digits_value(s.take(k), radix) <= digits_value(s, radix),
    decreases s.len(),
{
    if k == s.len() {
        assert(s.take(k) =~= s);
    } else {
        assert(s.drop_last().take(k) =~= s.take(k));
        lemma_digits_value_grows(s.drop_last(), k, radix);
        let shorter = digits_value(s.drop_last(), radix);
        assert(shorter <= shorter * radix) by (nonlinear_arith)
            requires
                radix >= 1,
                shorter >= 0,
        ;
    }
}

/// The value of `c` as a digit in the given radix, if it is one.
pub fn to_digit(c: char, radix: u32) -> (digit: Option<u32>)
    requires
        2 <= radix <= 36,
    ensures
        digit is Some == digit_value(c, radix as nat) is Some,
        digit is Some ==> digit.unwrap() as nat == digit_value(c, radix as nat).unwrap(),
        digit is Some ==> digit.unwrap() < radix,
{
    let u: u32 = c as u32;
    let value: u32 = if 0x30 <= u && u <= 0x39 {
        u - 0x30
    } else if 0x61 <= u && u <= 0x7A {
        u - 0x61 + 10
    } else if 0x41 <= u && u <= 0x5A {
        u - 0x41 + 10
    } else {
        return None;
    };
    if value < radix {
        Some(value)
    } else {
        None
    }
}

/// Reads `s` as an unsigned number in the given radix.
pub fn parse_usize(s: &[char], radix: u32) -> (number: Option<usize>)
    requires
        2 <= radix <= 36,
    ensures
        number == parsed_usize(s@, radix as nat),
{
    let start: usize = if s.len() > 0 && s[0] == '+' {
        1
    } else {
        0
    };
    if start == s.len() {
        return None;
    }
    let ghost digits = digits_of(s@);
    assert(digits =~= s@.subrange(start as int, s@.len() as int));
    let mut value: usize = 0;
    let mut i: usize = start;
    while i < s.len()
        invariant
            2 <= radix <= 36,
            start <= i <= s@.len(),
            digits == digits_of(s@),
            digits == s@.subrange(start as int, s@.len() as int),
            all_digits(digits.take(i - start), radix as nat),
            value == digits_value(digits.take(i - start), radix as nat),
        decreases s@.len() - i,
    {
        let ghost k = i - start;
        proof {
            assert(digits.take(k + 1).drop_last() =~= digits.take(k));
            assert(digits.take(k + 1).last() == s@[i as int]);
            assert(digits[k] == s@[i as int]);
        }
        let digit = match to_digit(s[i], radix) {
            Some(digit) => digit,
            None => {
                return None;
            },
        };
        let shifted = match value.checked_mul(radix as usize) {
            Some(shifted) => shifted,
            None => {
                proof {
                    lemma_digits_value_grows(digits, k + 1, radix as nat);
                }
                return None;
            },
        };
        value = match shifted.checked_add(digit as usize) {
            Some(sum) => sum,
            None => {
                proof {
                    lemma_digits_value_grows(digits, k + 1, radix as nat);
                }
                return None;
            },
        };
        proof {
            assert forall|j: int| 0 <= j < k + 1 implies (#[trigger] digit_value(
                digits.take(k + 1)[j],
                radix as nat,
            )) is Some by {
                if j < k {
                    assert(digits.take(k)[j] == digits.take(k + 1)[j]);
                }
            }
        }
        i += 1;
    }
    assert(digits.take(i - start) =~= digits);
    Some(value)
}

} // verus!
