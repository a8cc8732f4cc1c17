//! Classification of IEEE 754 binary64 bit patterns.
//!
//! The engines only ever need two questions answered about a binary64 value:
//! is it finite, and is it a valid smoothing parameter (strictly positive and
//! finite)?  Both questions are pure functions of the 64-bit pattern, so they
//! are stated and decided here on `u64` directly.

use vstd::prelude::*;

verus! {

/// Bit pattern of positive infinity: sign 0, exponent field all ones,
/// mantissa 0.  Every pattern strictly below it encodes a nonnegative finite
/// number (a zero, a subnormal, or a normal number); every pattern from here
/// up to the sign bit encodes a positive infinity or a NaN.
pub const POSITIVE_INFINITY_BITS: u64 = 0x7FF0_0000_0000_0000;

/// A binary64 bit pattern encodes a finite number exactly when its exponent
/// field (bits 62..=52) is not all ones; an all-ones exponent encodes an
/// infinity or a NaN, whatever the sign and mantissa.
pub open spec fn is_finite_bits(bits: u64) -> bool {
    (bits >> 52) & 0x7FF != 0x7FF
}

/// A binary64 bit pattern encodes a strictly positive finite number exactly
/// when it lies strictly between the pattern of +0.0 (which is 0) and the
/// pattern of positive infinity: such a pattern has sign bit 0, is not a
/// zero, and its exponent field is not all ones.
pub open spec fn is_positive_finite_bits(bits: u64) -> bool {
    0 < bits < POSITIVE_INFINITY_BITS
}

/// Decides `is_finite_bits`.
pub fn check_finite_bits(bits: u64) -> (r: bool)
    ensures
        r == is_finite_bits(bits),
{
    (bits >> 52) & 0x7FF != 0x7FF
}

/// Decides `is_positive_finite_bits`: whether the pattern encodes a valid
/// smoothing parameter.
pub fn check_positive_finite_bits(bits: u64) -> (r: bool)
    ensures
        r == is_positive_finite_bits(bits),
{
    bits > 0 && bits < POSITIVE_INFINITY_BITS
}

} // verus!
