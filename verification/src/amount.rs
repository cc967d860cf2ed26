//! Amounts written as decimal text: an optional `+`, then one or more digits,
//! naming a value that fits 128 unsigned bits.

use vstd::prelude::*;
use vstd::string::*;

verus! {

/// Whether `c` is one of the ten decimal digits.
pub open spec fn is_digit(c: char) -> bool {
    '0' <= c && c <= '9'
}

/// The value of a decimal digit.
pub open spec fn digit_value(c: char) -> nat {
    (c as int - '0' as int) as nat
}

/// Whether every character of `s` is a decimal digit.
pub open spec fn all_digits(s: Seq<char>) -> bool {
    forall|i: int| 0 <= i < s.len() ==> is_digit(#[trigger] s[i])
}

/// The number that a sequence of digits writes in base ten, the first digit
/// being the most significant; zero for the empty sequence.
pub open spec fn decimal_value(digits: Seq<char>) -> nat
    decreases digits.len(),
{
    if digits.len() == 0 {
        0
    } else {
        10 * decimal_value(digits.drop_last()) + digit_value(digits.last())
    }
}

/// `s` without its leading `+`, where it has one.
pub open spec fn unsigned_part(s: Seq<char>) -> Seq<char> {
    if s.len() > 0 && s[0] == '+' {
        s.skip(1)
    } else {
        s
    }
}

/// The amount that `s` writes: `s` is an optional `+` followed by at least
/// one digit and nothing else, and the number fits `u128`. `None` otherwise.
pub open spec fn amount_of(s: Seq<char>) -> Option<u128> {
    let digits = unsigned_part(s);
    if digits.len() > 0 && all_digits(digits) && decimal_value(digits) <= u128::MAX {
        Some(decimal_value(digits) as u128)
    } else {
        None
    }
}

/// Reading one more digit multiplies what was read by ten and adds the digit.
proof fn lemma_value_step(digits: Seq<char>, k: int)
    requires
        0 <= k < digits.len(),
    ensures
        decimal_value(digits.take(k + 1)) == 10 * decimal_value(digits.take(k)) + digit_value(
            digits[k],
        ),
{
    assert(digits.take(k + 1).drop_last() =~= digits.take(k));
}

/// A prefix of a digit sequence never writes a larger number than the whole.
proof fn lemma_prefix_value(digits: Seq<char>, k: int)
    requires
        0 <= k <= digits.len(),
    ensures
        decimal_value(digits.take(k)) <= decimal_value(digits),
    decreases digits.len() - k,
{
    if k == digits.len() {
        assert(digits.take(k) =~= digits);
    } else {
        lemma_value_step(digits, k);
        lemma_prefix_value(digits, k + 1);
    }
}

/// Parses an amount from its decimal text.
///
/// Accepts what `amount_of` describes and nothing else: no sign but one
/// leading `+`, no blanks, no separators, and no value above `u128::MAX`.
pub fn parse_amount(text: &str) -> (amount: Option<u128>)
    ensures
        amount == amount_of(text@),
{
    let ghost digits = unsigned_part(text@);
    if !text.is_ascii() {
        proof {
            let i = choose|i: int|
                0 <= i < text@.len() && !('\0' <= #[trigger] text@[i] && text@[i] <= '\u{7f}');
            if text@[0] == '+' {
                assert(digits[i - 1] == text@[i]);
            } else {
                assert(digits[i] == text@[i]);
            }
            assert(!all_digits(digits));
        }
        return None;
    }
    let bytes = text.as_bytes();
    proof {
        is_ascii_spec_bytes(text);
    }
    let n = bytes.len();
    let start: usize = if n > 0 && bytes[0] == 43u8 {
        1
    } else {
        0
    };
    assert(digits =~= text@.skip(start as int));
    if start == n {
        return None;
    }
    let mut value: u128 = 0;
    let mut i: usize = start;
    while i < n
        invariant
            start <= i <= n,
            n == text@.len(),
            vstd::utf8::is_ascii_chars(text@),
            bytes@ =~= Seq::new(text@.len(), |j: int| text@[j] as u8),
            digits == unsigned_part(text@),
            digits == text@.skip(start as int),
            all_digits(digits.take(i - start)),
            value == decimal_value(digits.take(i - start)),
        decreases n - i,
    {
        let b = bytes[i];
        let ghost k = i - start;
        assert(digits[k] == text@[i as int]);
        assert(b == text@[i as int] as u8);
        if b < 48u8 || b > 57u8 {
            assert(!is_digit(digits[k]));
            return None;
        }
        proof {
            lemma_value_step(digits, k);
            lemma_prefix_value(digits, k + 1);
            assert(digit_value(digits[k]) == b - 48);
        }
        let digit = (b - 48u8) as u128;
        let next = match value.checked_mul(10) {
            Some(tens) => tens.checked_add(digit),
            None => None,
        };
        match next {
            Some(v) => {
                value = v;
            },
            None => {
                return None;
            },
        }
        assert forall|j: int| 0 <= j < digits.take(k + 1).len() implies is_digit(
            #[trigger] digits.take(k + 1)[j],
        ) by {
            if j < k {
                assert(digits.take(k + 1)[j] == digits.take(k)[j]);
            }
        }
        i += 1;
    }
    assert(digits.take(n - start) =~= digits);
    Some(value)
}

} // verus!
