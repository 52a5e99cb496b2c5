//! Reading a time span such as `90s`, `15m` or `24h`.

use vstd::prelude::*;
use vstd::string::*;
use crate::decimal::{decimal_u64, parse_u64_between};
use crate::text::{chars_of, lowercase, to_lowercase};

verus! {

/// The number of seconds that stands for a text that cannot be read.
pub const DEFAULT_TIME_SECONDS: u64 = 86400;

/// How many seconds one unit holds, for the six unit letters.
pub open spec fn unit_seconds(unit: char) -> Option<u64> {
    if unit == 's' {
        Some(1u64)
    } else if unit == 'm' {
        Some(60u64)
    } else if unit == 'h' {
        Some(3600u64)
    } else if unit == 'd' {
        Some(86400u64)
    } else if unit == 'w' {
        Some(604800u64)
    } else if unit == 'y' {
        Some(31536000u64)
    } else {
        None
    }
}

/// A product as 64 bits hold it: what goes beyond is lost.
pub open spec fn wrapped(product: int) -> u64 {
    (product % 0x1_0000_0000_0000_0000) as u64
}

/// The seconds that a lower-case text denotes: a number followed by one unit
/// letter, or a bare number of seconds. The product wraps around at 2^64, and
/// a text that holds no number denotes the default.
pub open spec fn span_seconds(text: Seq<char>) -> u64 {
    if text.len() > 0 && unit_seconds(text.last()) is Some {
        match decimal_u64(text.drop_last()) {
            Some(count) => wrapped(count * unit_seconds(text.last())->0),
            None => DEFAULT_TIME_SECONDS,
        }
    } else {
        match decimal_u64(text) {
            Some(count) => count,
            None => DEFAULT_TIME_SECONDS,
        }
    }
}

fn unit_factor(unit: char) -> (r: Option<u64>)
    ensures
        r == unit_seconds(unit),
{
    if unit == 's' {
        Some(1)
    } else if unit == 'm' {
        Some(60)
    } else if unit == 'h' {
        Some(3600)
    } else if unit == 'd' {
        Some(86400)
    } else if unit == 'w' {
        Some(604800)
    } else if unit == 'y' {
        Some(31536000)
    } else {
        None
    }
}

/// Reads a time span from a text that is already in lower case.
pub fn lowercase_to_time_second(text: &str) -> (r: u64)
    ensures
        r == span_seconds(text@),
{
    let chars = chars_of(text);
    let len: usize = chars.len();
    if len > 0 {
        if let Some(factor) = unit_factor(chars[len - 1]) {
            assert(chars@.subrange(0, len - 1) =~= text@.drop_last());
            return match parse_u64_between(&chars, 0, len - 1) {
                Some(count) => count.wrapping_mul(factor),
                None => DEFAULT_TIME_SECONDS,
            };
        }
    }
    assert(chars@.subrange(0, len as int) =~= text@);
    match parse_u64_between(&chars, 0, len) {
        Some(count) => count,
        None => DEFAULT_TIME_SECONDS,
    }
}

/// Reads a time span in seconds, whatever the case of its letters.
pub fn string_to_time_second(s: &str) -> (r: u64)
    ensures
        r == span_seconds(lowercase(s@)),
{
    let lower = to_lowercase(s);
    lowercase_to_time_second(lower.as_str())
}

} // verus!
