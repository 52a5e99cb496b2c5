//! Decimal numbers: reading them from a text and writing them into one.

use vstd::prelude::*;
use vstd::string::*;
use crate::text::{chars_of, push_char};

verus! {

/// Whether `c` is one of the ten ASCII decimal digits.
pub open spec fn is_digit(c: char) -> bool {
    '0' <= c && c <= '9'
}

/// The number that a sequence of decimal digits denotes.
pub open spec fn digits_value(digits: Seq<char>) -> nat
    decreases digits.len(),
{
    if digits.len() == 0 {
        0
    } else {
        digits_value(digits.drop_last()) * 10 + ((digits.last() as nat) - ('0' as nat)) as nat
    }
}

/// Whether every character of `digits` is a decimal digit.
pub open spec fn all_digits(digits: Seq<char>) -> bool {
    forall|i: int| 0 <= i < digits.len() ==> is_digit(#[trigger] digits[i])
}

/// The number that a sequence of characters denotes as digits alone.
pub open spec fn digits_u64(digits: Seq<char>) -> Option<u64> {
    if digits.len() > 0 && all_digits(digits) && digits_value(digits) <= u64::MAX {
        Some(digits_value(digits) as u64)
    } else {
        None
    }
}

/// The unsigned 64-bit number written in `text`: an optional `+`, then one or
/// more decimal digits whose value fits. Anything else denotes no number.
pub open spec fn decimal_u64(text: Seq<char>) -> Option<u64> {
    let digits = if text.len() > 0 && text[0] == '+' {
        text.subrange(1, text.len() as int)
    } else {
        text
    };
    digits_u64(digits)
}

/// The character of a decimal digit.
pub open spec fn digit_char(d: int) -> char {
    if d == 0 {
        '0'
    } else if d == 1 {
        '1'
    } else if d == 2 {
        '2'
    } else if d == 3 {
        '3'
    } else if d == 4 {
        '4'
    } else if d == 5 {
        '5'
    } else if d == 6 {
        '6'
    } else if d == 7 {
        '7'
    } else if d == 8 {
        '8'
    } else {
        '9'
    }
}

/// A number in decimal digits, without leading zeros.
pub open spec fn decimal(n: nat) -> Seq<char>
    decreases n,
{
    if n < 10 {
        seq![digit_char(n as int)]
    } else {
        decimal(n / 10).push(digit_char((n % 10) as int))
    }
}

/// A number below one thousand in three decimal digits.
pub open spec fn three_digits(n: nat) -> Seq<char> {
    seq![
        digit_char((n / 100) as int),
        digit_char(((n / 10) % 10) as int),
        digit_char((n % 10) as int),
    ]
}

/// An amount of nanoseconds in seconds, with three digits behind the point;
/// what is less than a millisecond is cut off.
pub open spec fn seconds(nanos: nat) -> Seq<char> {
    decimal(nanos / 1_000_000_000) + seq!['.'] + three_digits((nanos % 1_000_000_000) / 1_000_000)
}

/// The character of a decimal digit.
pub fn digit(d: u64) -> (r: char)
    requires
        d < 10,
    ensures
        r == digit_char(d as int),
{
    if d == 0 {
        '0'
    } else if d == 1 {
        '1'
    } else if d == 2 {
        '2'
    } else if d == 3 {
        '3'
    } else if d == 4 {
        '4'
    } else if d == 5 {
        '5'
    } else if d == 6 {
        '6'
    } else if d == 7 {
        '7'
    } else if d == 8 {
        '8'
    } else {
        '9'
    }
}

/// Writes a number in decimal digits.
pub fn decimal_text(n: u64) -> (r: String)
    ensures
        r@ == decimal(n as nat),
    decreases n,
{
    if n < 10 {
        let mut out = String::new();
        push_char(&mut out, digit(n));
        assert(out@ =~= seq![digit_char(n as int)]);
        out
    } else {
        let mut out = decimal_text(n / 10);
        push_char(&mut out, digit(n % 10));
        out
    }
}

/// Writes an amount of nanoseconds in seconds and milliseconds.
pub fn seconds_text(nanos: u64) -> (r: String)
    ensures
        r@ == seconds(nanos as nat),
{
    let millis: u64 = (nanos % 1_000_000_000) / 1_000_000;
    let mut out = decimal_text(nanos / 1_000_000_000);
    push_char(&mut out, '.');
    push_char(&mut out, digit(millis / 100));
    push_char(&mut out, digit((millis / 10) % 10));
    push_char(&mut out, digit(millis % 10));
    assert(out@ =~= seconds(nanos as nat));
    out
}

/// The value of a sequence of digits is at least the value of any of its
/// beginnings.
pub proof fn lemma_digits_value_grows(digits: Seq<char>, upto: int)
    requires
        all_digits(digits),
        0 <= upto <= digits.len(),
    ensures
        digits_value(digits.take(upto)) <= digits_value(digits),
    decreases digits.len() - upto,
{
    if upto == digits.len() {
        assert(digits.take(upto) =~= digits);
    } else {
        let longer = digits.take(upto + 1);
        assert(longer.drop_last() =~= digits.take(upto));
        assert(is_digit(digits[upto]));
        assert(longer.last() == digits[upto]);
        lemma_digits_value_grows(digits, upto + 1);
    }
}

/// Reads the unsigned 64-bit number that a stretch of characters writes.
pub fn parse_u64_between(chars: &Vec<char>, start: usize, end: usize) -> (r: Option<u64>)
    requires
        start <= end <= chars.len(),
    ensures
        r == decimal_u64(chars@.subrange(start as int, end as int)),
{
    let ghost text = chars@.subrange(start as int, end as int);
    let first: usize = if start < end && chars[start] == '+' {
        start + 1
    } else {
        start
    };
    let ghost digits = chars@.subrange(first as int, end as int);
    proof {
        if start < end {
            assert(text[0] == chars@[start as int]);
        }
        if first == start {
            assert(digits =~= text);
        } else {
            assert(digits =~= text.subrange(1, text.len() as int));
        }
    }
    assert(decimal_u64(text) == digits_u64(digits));
    if first == end {
        return None;
    }
    let mut value: u64 = 0;
    let mut i: usize = first;
    assert(digits.take(0) =~= Seq::<char>::empty());
    while i < end
        invariant
            first <= i <= end <= chars.len(),
            digits == chars@.subrange(first as int, end as int),
            decimal_u64(chars@.subrange(start as int, end as int)) == digits_u64(digits),
            all_digits(digits.take(i - first)),
            value == digits_value(digits.take(i - first)),
        decreases end - i,
    {
        let c = chars[i];
        assert(digits[i - first] == c);
        if !('0' <= c && c <= '9') {
            return None;
        }
        let d: u64 = (c as u32 - '0' as u32) as u64;
        let ghost longer = digits.take(i - first + 1);
        proof {
            assert(longer.drop_last() =~= digits.take(i - first));
            assert(longer.last() == c);
            assert(digits_value(longer) == value * 10 + d);
            assert forall|j: int| 0 <= j < longer.len() implies is_digit(#[trigger] longer[j]) by {
                if j < i - first {
                    assert(digits.take(i - first)[j] == longer[j]);
                }
            }
        }
        if value > (u64::MAX - d) / 10 {
            proof {
                if all_digits(digits) {
                    lemma_digits_value_grows(digits, i - first + 1);
                }
            }
            return None;
        }
        value = value * 10 + d;
        i += 1;
    }
    assert(digits.take(digits.len() as int) =~= digits);
    Some(value)
}

/// Reads an unsigned 64-bit number: an optional `+` followed by decimal
/// digits only. Nothing is read where there is no digit, another character,
/// or a number that does not fit.
pub fn parse_u64(text: &str) -> (r: Option<u64>)
    ensures
        r == decimal_u64(text@),
{
    let chars = chars_of(text);
    assert(chars@.subrange(0, chars@.len() as int) =~= text@);
    parse_u64_between(&chars, 0, chars.len())
}

} // verus!
