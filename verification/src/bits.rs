//! A bit-level model of IEEE-754 double-precision sample values.
//!
//! Every sample is carried as its 64-bit pattern.  Classification (NaN,
//! sign, zero) and numeric ordering of non-NaN patterns are plain bit
//! logic, stated and verified here; only transcendental and inexact
//! arithmetic is delegated to outside math routines elsewhere.

use vstd::prelude::*;

verus! {

/// Sign bit of a double-precision pattern.
pub const SIGN_MASK: u64 = 0x8000_0000_0000_0000;

/// Exponent field of a double-precision pattern.
pub const EXP_MASK: u64 = 0x7FF0_0000_0000_0000;

/// Fraction field of a double-precision pattern.
pub const FRAC_MASK: u64 = 0x000F_FFFF_FFFF_FFFF;

/// Everything but the sign bit.
pub const MAG_MASK: u64 = 0x7FFF_FFFF_FFFF_FFFF;

/// The pattern of +0.0.
pub const ZERO_BITS: u64 = 0;

/// The pattern of 1.0.
pub const ONE_BITS: u64 = 0x3FF0_0000_0000_0000;

/// The pattern of positive infinity.
pub const POS_INF_BITS: u64 = 0x7FF0_0000_0000_0000;

/// The pattern of negative infinity.
pub const NEG_INF_BITS: u64 = 0xFFF0_0000_0000_0000;

/// One quiet not-a-number pattern, standing for every NaN where a single
/// representative is needed.
pub const QNAN_BITS: u64 = 0x7FF8_0000_0000_0000;

/// The pattern encodes a NaN: exponent all ones, fraction non-zero.
pub open spec fn is_nan_bits(b: u64) -> bool {
    b & EXP_MASK == EXP_MASK && b & FRAC_MASK != 0
}

/// The sign bit is set (true also of -0.0).
pub open spec fn is_negative_bits(b: u64) -> bool {
    b & SIGN_MASK == SIGN_MASK
}

/// The pattern encodes +0.0 or -0.0.
pub open spec fn is_zero_bits(b: u64) -> bool {
    b & MAG_MASK == 0
}

/// Numeric "a < b" on double-precision patterns, meaningful when neither
/// side is a NaN: the two zeroes are equal, a negative number is below a
/// non-negative one, non-negative numbers order as their patterns, and
/// negative numbers order as their patterns reversed.
pub open spec fn lt_bits(a: u64, b: u64) -> bool {
    if is_zero_bits(a) && is_zero_bits(b) {
        false
    } else if is_negative_bits(a) != is_negative_bits(b) {
        is_negative_bits(a)
    } else if is_negative_bits(a) {
        b < a
    } else {
        a < b
    }
}

/// The two patterns are equal, or both are NaNs (of any payload).
pub open spec fn nan_eq(a: u64, b: u64) -> bool {
    a == b || (is_nan_bits(a) && is_nan_bits(b))
}

/// Runtime NaN test on a pattern.
pub fn is_nan(b: u64) -> (r: bool)
    ensures
        r == is_nan_bits(b),
{
    b & EXP_MASK == EXP_MASK && b & FRAC_MASK != 0
}

/// Runtime numeric comparison of two non-NaN patterns.
pub fn lt(a: u64, b: u64) -> (r: bool)
    ensures
        r == lt_bits(a, b),
{
    let a_zero = a & MAG_MASK == 0;
    let b_zero = b & MAG_MASK == 0;
    let a_neg = a & SIGN_MASK == SIGN_MASK;
    let b_neg = b & SIGN_MASK == SIGN_MASK;
    if a_zero && b_zero {
        false
    } else if a_neg != b_neg {
        a_neg
    } else if a_neg {
        b < a
    } else {
        a < b
    }
}

} // verus!
