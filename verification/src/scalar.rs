//! Scalars as bit patterns.
//!
//! Every real quantity of the engine (a coordinate, a mass, a force) is held
//! as the 64 bits of an IEEE 754 binary64 number. This module decides, on the
//! bits alone, the few questions the engine asks of a scalar without
//! computing with it: whether it is zero, whether it is a valid mass, and how
//! two of them compare.
use vstd::prelude::*;

verus! {

/// The sign bit: every pattern at or above it is a negative number, a
/// negative zero or a NaN with the sign set.
pub const SIGN_BIT: u64 = 0x8000_0000_0000_0000;

/// Positive infinity. The patterns below it are the non-negative finite
/// numbers, in rising order.
pub const INFINITY: u64 = 0x7FF0_0000_0000_0000;

/// Positive zero.
pub const ZERO: u64 = 0x0000_0000_0000_0000;

/// The number one.
pub const ONE: u64 = 0x3FF0_0000_0000_0000;

/// The pattern without its sign bit.
pub open spec fn magnitude_bits(bits: u64) -> u64 {
    if bits >= SIGN_BIT {
        (bits - SIGN_BIT) as u64
    } else {
        bits
    }
}

/// Positive or negative zero.
pub open spec fn is_zero(bits: u64) -> bool {
    magnitude_bits(bits) == ZERO
}

/// Not a number: all exponent bits set and a fraction that is not zero.
pub open spec fn is_nan(bits: u64) -> bool {
    magnitude_bits(bits) > INFINITY
}

/// A number greater than zero and less than infinity.
pub open spec fn is_positive_finite(bits: u64) -> bool {
    ZERO < bits < INFINITY
}

/// A number at or above positive zero, positive infinity included: neither
/// NaN nor anything with the sign bit. Among such numbers the numeric order
/// is the order of the patterns.
pub open spec fn is_magnitude(bits: u64) -> bool {
    bits <= INFINITY
}

/// The comparison `a <= b` of the two numbers: false when either is NaN, true
/// for two zeros of any sign, and otherwise the order of the number line.
pub open spec fn at_most(a: u64, b: u64) -> bool {
    if is_nan(a) || is_nan(b) {
        false
    } else if a >= SIGN_BIT && b >= SIGN_BIT {
        a >= b
    } else if a >= SIGN_BIT {
        true
    } else if b >= SIGN_BIT {
        is_zero(a) && is_zero(b)
    } else {
        a <= b
    }
}

fn strip_sign(bits: u64) -> (r: u64)
    ensures
        r == magnitude_bits(bits),
{
    if bits >= SIGN_BIT {
        bits - SIGN_BIT
    } else {
        bits
    }
}

/// Whether the number is positive or negative zero.
pub fn zero(bits: u64) -> (r: bool)
    ensures
        r == is_zero(bits),
{
    strip_sign(bits) == ZERO
}

/// Whether the pattern is a NaN.
pub fn nan(bits: u64) -> (r: bool)
    ensures
        r == is_nan(bits),
{
    strip_sign(bits) > INFINITY
}

/// Whether the number is greater than zero and finite.
pub fn positive_finite(bits: u64) -> (r: bool)
    ensures
        r == is_positive_finite(bits),
{
    ZERO < bits && bits < INFINITY
}

/// Whether the number is non-negative and not NaN.
pub fn magnitude(bits: u64) -> (r: bool)
    ensures
        r == is_magnitude(bits),
{
    bits <= INFINITY
}

/// Whether the first number is less than or equal to the second.
pub fn less_or_equal(a: u64, b: u64) -> (r: bool)
    ensures
        r == at_most(a, b),
{
    if nan(a) || nan(b) {
        false
    } else if a >= SIGN_BIT && b >= SIGN_BIT {
        a >= b
    } else if a >= SIGN_BIT {
        true
    } else if b >= SIGN_BIT {
        zero(a) && zero(b)
    } else {
        a <= b
    }
}

/// Among non-negative numbers the order of the numbers is the order of
/// their patterns.
pub proof fn magnitudes_order_as_bits(a: u64, b: u64)
    requires
        is_magnitude(a),
        is_magnitude(b),
    ensures
        at_most(a, b) <==> a <= b,
{
}

} // verus!
