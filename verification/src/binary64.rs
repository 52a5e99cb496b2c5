//! The order of binary64 numbers, read off their bit patterns.
//!
//! A rate travels through this crate as the 64 bits of an IEEE 754 binary64
//! number: one sign bit, eleven exponent bits, fifty-two fraction bits. The
//! order of two such numbers can be decided on the bits alone, which is all
//! that is done here; no arithmetic is.

use vstd::prelude::*;

verus! {

/// The bit that holds the sign.
pub const SIGN_BIT: u64 = 0x8000_0000_0000_0000;

/// The bit pattern of positive infinity; with the sign taken off, every
/// pattern above it is not a number.
pub const INFINITY: u64 = 0x7FF0_0000_0000_0000;

/// A bit pattern without its sign: the pattern of the absolute value.
pub open spec fn magnitude(bits: u64) -> int {
    if bits >= SIGN_BIT {
        bits - SIGN_BIT
    } else {
        bits as int
    }
}

/// Whether a bit pattern is not a number.
pub open spec fn is_nan(bits: u64) -> bool {
    magnitude(bits) > INFINITY
}

/// An integer that grows with the number which a bit pattern denotes, for
/// every pattern that is a number. Both zeros have the key 0.
pub open spec fn order_key(bits: u64) -> int {
    if bits >= SIGN_BIT {
        -magnitude(bits)
    } else {
        magnitude(bits)
    }
}

/// Whether the number of `left` is less than the number of `right`. Nothing
/// is less than, or greater than, what is not a number.
pub open spec fn less(left: u64, right: u64) -> bool {
    !is_nan(left) && !is_nan(right) && order_key(left) < order_key(right)
}

/// The pattern of the absolute value.
pub fn absolute(bits: u64) -> (r: u64)
    ensures
        r == magnitude(bits),
        r < SIGN_BIT,
        is_nan(r) == is_nan(bits),
{
    if bits >= SIGN_BIT {
        bits - SIGN_BIT
    } else {
        bits
    }
}

/// Whether a bit pattern is not a number.
pub fn not_a_number(bits: u64) -> (r: bool)
    ensures
        r == is_nan(bits),
{
    absolute(bits) > INFINITY
}

/// Whether the number of `left` is less than the number of `right`.
pub fn less_than(left: u64, right: u64) -> (r: bool)
    ensures
        r == less(left, right),
{
    if not_a_number(left) || not_a_number(right) {
        false
    } else if left >= SIGN_BIT {
        if right >= SIGN_BIT {
            absolute(left) > absolute(right)
        } else {
            absolute(left) > 0 || right > 0
        }
    } else {
        if right >= SIGN_BIT {
            false
        } else {
            left < right
        }
    }
}

} // verus!
