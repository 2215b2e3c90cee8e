//! The pixel-to-color mapper: one scalar intensity becomes a greyscale
//! color whose hue and saturation are zero and whose lightness is the
//! intensity, clamped into [0, 1].  Drawing surfaces reject non-finite
//! components, so the clamp is total: a NaN or negative intensity maps
//! to 0, and anything above one (positive infinity included) maps to 1.

use vstd::prelude::*;

use crate::bits::{
    is_nan, is_nan_bits, is_negative_bits, nan_eq, ONE_BITS, SIGN_MASK, ZERO_BITS,
};

verus! {

/// The pattern encodes a finite value within [0, 1]: non-negative and
/// no greater than the pattern of 1.0.
pub open spec fn is_unit_bits(b: u64) -> bool {
    b <= ONE_BITS
}

/// The clamped lightness for an intensity pattern.
pub open spec fn clamp_unit_spec(b: u64) -> u64 {
    if is_nan_bits(b) {
        ZERO_BITS
    } else if is_negative_bits(b) {
        ZERO_BITS
    } else if b > ONE_BITS {
        ONE_BITS
    } else {
        b
    }
}

/// The clamp always yields a valid lightness.
pub proof fn lemma_clamp_valid(b: u64)
    ensures
        is_unit_bits(clamp_unit_spec(b)),
{
}

/// Intensities that agree up to NaN payloads clamp to the same
/// lightness.
pub proof fn lemma_clamp_nan_eq(a: u64, b: u64)
    requires
        nan_eq(a, b),
    ensures
        clamp_unit_spec(a) == clamp_unit_spec(b),
{
}

/// A greyscale color: hue and saturation are zero, and the lightness is
/// the double-precision pattern of a value within [0, 1].
#[derive(Clone, Copy, Debug, PartialEq, Eq, Structural)]
pub struct GreyColor {
    /// The lightness, as a double-precision bit pattern.
    pub lightness: u64,
}

impl GreyColor {
    /// The lightness is a valid, clamped value.
    pub open spec fn wf(&self) -> bool {
        is_unit_bits(self.lightness)
    }
}

/// Maps one intensity to its greyscale color, clamping defensively.
pub fn map_color(intensity: u64) -> (c: GreyColor)
    ensures
        c.lightness == clamp_unit_spec(intensity),
        c.wf(),
{
    let lightness = if is_nan(intensity) {
        ZERO_BITS
    } else if intensity & SIGN_MASK == SIGN_MASK {
        ZERO_BITS
    } else if intensity > ONE_BITS {
        ONE_BITS
    } else {
        intensity
    };
    GreyColor { lightness }
}

} // verus!
