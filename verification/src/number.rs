//! Decimal integers in text.

use vstd::prelude::*;
use vstd::string::StringExecFns;
use crate::text::chars_of;

verus! {

/// Whether a character is one of the ten decimal digits.
pub open spec fn is_digit(c: char) -> bool {
    0x30 <= c as u32 <= 0x39
}

/// The number that a decimal digit stands for.
pub open spec fn digit_value(c: char) -> int {
    c as u32 - 0x30
}

/// Whether a text holds decimal digits only.
pub open spec fn all_digits(s: Seq<char>) -> bool {
    forall|i: int| 0 <= i < s.len() ==> is_digit(#[trigger] s[i])
}

/// The number that a run of decimal digits writes; leading zeros count for
/// nothing.
pub open spec fn digits_value(s: Seq<char>) -> nat
    decreases s.len(),
{
    if s.len() == 0 {
        0
    } else {
        (digits_value(s.drop_last()) * 10 + digit_value(s.last())) as nat
    }
}

/// Whether a text begins with a sign.
pub open spec fn has_sign(s: Seq<char>) -> bool {
    s.len() > 0 && (s[0] == '-' || s[0] == '+')
}

/// The integer that a text writes, before any bound is put on it: an optional
/// `+` or `-`, then at least one digit and nothing else.
pub open spec fn decimal_value(s: Seq<char>) -> Option<int> {
    let digits = if has_sign(s) {
        s.drop_first()
    } else {
        s
    };
    if digits.len() == 0 || !all_digits(digits) {
        None
    } else if s[0] == '-' {
        Some(-(digits_value(digits) as int))
    } else {
        Some(digits_value(digits) as int)
    }
}

/// The signed 64-bit integer that a text writes, if it writes one.
pub open spec fn decimal_i64(s: Seq<char>) -> Option<i64> {
    match decimal_value(s) {
        Some(value) => if i64::MIN <= value <= i64::MAX {
            Some(value as i64)
        } else {
            None
        },
        None => None,
    }
}

/// One digit more: the run stays a run of digits, and its value is ten times
/// the value before and the new digit.
proof fn lemma_one_digit_more(digits: Seq<char>, before: int)
    requires
        0 <= before < digits.len(),
        all_digits(digits.take(before)),
        is_digit(digits[before]),
    ensures
        all_digits(digits.take(before + 1)),
        digits_value(digits.take(before + 1)) == digits_value(digits.take(before)) * 10
            + digit_value(digits[before]),
{
    let longer = digits.take(before + 1);
    assert(longer.drop_last() == digits.take(before));
    assert(longer.last() == digits[before]);
    assert forall|i: int| 0 <= i < longer.len() implies is_digit(#[trigger] longer[i]) by {
        if i < before {
            assert(longer[i] == digits.take(before)[i]);
        }
    }
}

/// Reads a signed 64-bit integer written in decimal, as `str::parse` does for
/// `i64`: an optional sign, then digits only; no blanks, no value out of range.
pub fn parse_i64(s: &str) -> (parsed: Option<i64>)
    ensures
        parsed == decimal_i64(s@),
{
    let chars = chars_of(s);
    let n: usize = chars.len();
    let signed: bool = n > 0 && (chars[0] == '-' || chars[0] == '+');
    let negative: bool = n > 0 && chars[0] == '-';
    let first: usize = if signed {
        1
    } else {
        0
    };
    if first == n {
        return None;
    }
    let ghost digits = chars@.skip(first as int);
    assert(digits == if has_sign(s@) {
        s@.drop_first()
    } else {
        s@
    });
    // One more than the largest `i64`: the size of the smallest.
    let limit: u128 = 0x8000_0000_0000_0000;
    let mut value: u128 = 0;
    let mut fits: bool = true;
    let mut at: usize = first;
    while at < n
        invariant
            first <= at <= n,
            n == chars.len(),
            digits == chars@.skip(first as int),
            digits == if has_sign(s@) {
                s@.drop_first()
            } else {
                s@
            },
            limit == 0x8000_0000_0000_0000,
            all_digits(digits.take(at - first)),
            fits ==> value == digits_value(digits.take(at - first)) && value <= limit,
            !fits ==> digits_value(digits.take(at - first)) > limit,
        decreases n - at,
    {
        let code: u32 = chars[at] as u32;
        if code < 0x30 || code > 0x39 {
            assert(!is_digit(digits[at - first]));
            assert(!all_digits(digits));
            return None;
        }
        proof {
            lemma_one_digit_more(digits, at - first);
        }
        if fits {
            let longer: u128 = value * 10 + (code - 0x30) as u128;
            if longer > limit {
                fits = false;
            } else {
                value = longer;
            }
        }
        at += 1;
    }
    assert(digits.take(at - first) == digits);
    if !fits {
        None
    } else if negative {
        if value == limit {
            Some(i64::MIN)
        } else {
            Some(-(value as i64))
        }
    } else if value == limit {
        None
    } else {
        Some(value as i64)
    }
}

/// The character that writes a number below ten.
pub open spec fn digit_char(digit: int) -> char {
    if digit == 0 {
        '0'
    } else if digit == 1 {
        '1'
    } else if digit == 2 {
        '2'
    } else if digit == 3 {
        '3'
    } else if digit == 4 {
        '4'
    } else if digit == 5 {
        '5'
    } else if digit == 6 {
        '6'
    } else if digit == 7 {
        '7'
    } else if digit == 8 {
        '8'
    } else {
        '9'
    }
}

/// A natural number in decimal, without leading zeros.
pub open spec fn decimal_text(n: nat) -> Seq<char>
    decreases n,
{
    if n < 10 {
        seq![digit_char(n as int)]
    } else {
        decimal_text(n / 10).push(digit_char((n % 10) as int))
    }
}

/// The text of one decimal digit.
pub fn digit_text(digit: u64) -> (text: &'static str)
    requires
        digit < 10,
    ensures
        text@ == seq![digit_char(digit as int)],
{
    proof {
        reveal_strlit("0");
        reveal_strlit("1");
        reveal_strlit("2");
        reveal_strlit("3");
        reveal_strlit("4");
        reveal_strlit("5");
        reveal_strlit("6");
        reveal_strlit("7");
        reveal_strlit("8");
        reveal_strlit("9");
    }
    if digit == 0 {
        "0"
    } else if digit == 1 {
        "1"
    } else if digit == 2 {
        "2"
    } else if digit == 3 {
        "3"
    } else if digit == 4 {
        "4"
    } else if digit == 5 {
        "5"
    } else if digit == 6 {
        "6"
    } else if digit == 7 {
        "7"
    } else if digit == 8 {
        "8"
    } else {
        "9"
    }
}

/// Writes a natural number in decimal at the end of a text.
pub fn push_decimal(text: &mut String, n: u64)
    ensures
        final(text)@ == old(text)@ + decimal_text(n as nat),
    decreases n,
{
    if n >= 10 {
        push_decimal(text, n / 10);
    }
    text.append(digit_text(n % 10));
}

/// What is written in decimal reads back as the number that was written.
pub proof fn lemma_decimal_text_reads_back(n: nat)
    ensures
        decimal_text(n).len() > 0,
        all_digits(decimal_text(n)),
        digits_value(decimal_text(n)) == n,
    decreases n,
{
    if n < 10 {
        let text = decimal_text(n);
        assert(text.drop_last().len() == 0);
        assert(digits_value(text.drop_last()) == 0);
    } else {
        lemma_decimal_text_reads_back(n / 10);
        let text = decimal_text(n);
        assert(text.drop_last() == decimal_text(n / 10));
        assert(text.last() == digit_char((n % 10) as int));
        assert forall|i: int| 0 <= i < text.len() implies is_digit(#[trigger] text[i]) by {
            if i < text.len() - 1 {
                assert(text[i] == decimal_text(n / 10)[i]);
            }
        }
    }
}

} // verus!
