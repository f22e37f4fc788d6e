//! Single-precision scalars, carried by their bit patterns.

use vstd::prelude::*;

verus! {

/// The bit pattern of 0.01, the intensity that a glow level has to exceed to
/// count as active.
pub const GLOW_LEVEL_THRESHOLD_BITS: u32 = 0x3C23_D70A;

/// The bit pattern of positive infinity, the largest pattern that is a number
/// and not negative.
pub const POSITIVE_INFINITY_BITS: u32 = 0x7F80_0000;

/// The bit pattern of 0.0.
pub const ZERO_BITS: u32 = 0;

/// The bit pattern of 1.0.
pub const ONE_BITS: u32 = 0x3F80_0000;

/// An IEEE-754 single-precision number, held as its 32-bit pattern: the sign
/// in the top bit, then eight bits of exponent and 23 of mantissa.
#[derive(Clone, Copy, PartialEq, Eq, Structural, Debug)]
pub struct Scalar {
    pub bits: u32,
}

impl Scalar {
    /// Whether the number is greater than 0.01. Among the patterns with a
    /// clear sign bit, a larger number has a larger pattern, up to positive
    /// infinity; the patterns above infinity are not numbers and those with the
    /// sign bit set are negative, and neither is greater than anything
    /// positive.
    pub open spec fn exceeds_glow_threshold(self) -> bool {
        GLOW_LEVEL_THRESHOLD_BITS < self.bits <= POSITIVE_INFINITY_BITS
    }

    /// The scalar with the given bit pattern.
    pub fn from_bits(bits: u32) -> (scalar: Scalar)
        ensures
            scalar.bits == bits,
    {
        Scalar { bits }
    }

    /// The bit pattern of the scalar.
    pub fn to_bits(&self) -> (bits: u32)
        ensures
            bits == self.bits,
    {
        self.bits
    }

    /// The number 0.0.
    pub fn zero() -> (scalar: Scalar)
        ensures
            scalar.bits == ZERO_BITS,
    {
        Scalar { bits: ZERO_BITS }
    }

    /// The number 1.0.
    pub fn one() -> (scalar: Scalar)
        ensures
            scalar.bits == ONE_BITS,
    {
        Scalar { bits: ONE_BITS }
    }

    /// Whether a glow level of this intensity is active.
    pub fn is_active_level(&self) -> (active: bool)
        ensures
            active == self.exceeds_glow_threshold(),
    {
        GLOW_LEVEL_THRESHOLD_BITS < self.bits && self.bits <= POSITIVE_INFINITY_BITS
    }
}

/// The reciprocals of the width and the height of an image, in texels.
#[derive(Clone, Copy, PartialEq, Eq, Structural, Debug)]
pub struct PixelSize {
    pub x: Scalar,
    pub y: Scalar,
}

} // verus!
