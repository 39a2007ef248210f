//! Single-precision scalars carried by their IEEE 754 bit pattern.
//!
//! The binding layer never does arithmetic on these values; it only negates
//! them (a sign-bit flip), tests them for finiteness and positivity (bit
//! tests on the exponent and sign fields), and passes them through. Holding
//! the raw bit pattern makes every one of those operations exact.

use vstd::prelude::*;

verus! {

/// Mask of the sign bit of a single-precision value.
pub const SIGN_MASK: u32 = 0x8000_0000;

/// Mask of the exponent field of a single-precision value.
pub const EXPONENT_MASK: u32 = 0x7F80_0000;

/// Mask of everything but the sign bit (exponent and mantissa).
pub const MAGNITUDE_MASK: u32 = 0x7FFF_FFFF;

/// A single-precision scalar, held as its IEEE 754 bit pattern.
#[derive(Clone, Copy, PartialEq, Eq, Structural, Debug)]
pub struct Scalar {
    pub bits: u32,
}

/// A value is finite exactly when its exponent field is not all ones
/// (all ones encodes an infinity or a NaN).
pub open spec fn spec_is_finite(bits: u32) -> bool {
    bits & EXPONENT_MASK != EXPONENT_MASK
}

/// A value is zero exactly when everything but the sign bit is zero
/// (both signed zeros count).
pub open spec fn spec_is_zero(bits: u32) -> bool {
    bits & MAGNITUDE_MASK == 0
}

/// A value is strictly positive exactly when it is finite, not a zero, and
/// its sign bit is clear.
pub open spec fn spec_is_pos(bits: u32) -> bool {
    spec_is_finite(bits) && !spec_is_zero(bits) && bits & SIGN_MASK == 0
}

/// Negation of a single-precision value flips the sign bit and nothing else.
pub open spec fn spec_neg(bits: u32) -> u32 {
    bits ^ SIGN_MASK
}

impl Scalar {
    /// Wraps a raw bit pattern.
    pub fn from_bits(bits: u32) -> (r: Scalar)
        ensures
            r.bits == bits,
    {
        Scalar { bits }
    }

    /// True exactly when the encoded value is finite (neither an infinity
    /// nor a NaN).
    pub fn is_finite(self) -> (r: bool)
        ensures
            r == spec_is_finite(self.bits),
    {
        self.bits & EXPONENT_MASK != EXPONENT_MASK
    }

    /// True exactly when the encoded value is a zero of either sign.
    pub fn is_zero(self) -> (r: bool)
        ensures
            r == spec_is_zero(self.bits),
    {
        self.bits & MAGNITUDE_MASK == 0
    }

    /// True exactly when the encoded value is finite and strictly positive.
    pub fn is_pos(self) -> (r: bool)
        ensures
            r == spec_is_pos(self.bits),
    {
        self.is_finite() && !self.is_zero() && self.bits & SIGN_MASK == 0
    }

    /// The negated value: the sign bit flipped, everything else kept.
    pub fn neg(self) -> (r: Scalar)
        ensures
            r.bits == spec_neg(self.bits),
    {
        Scalar { bits: self.bits ^ SIGN_MASK }
    }
}

/// Negation is an involution: flipping the sign bit twice restores the
/// original bit pattern exactly.
pub proof fn lemma_neg_involution(bits: u32)
    ensures
        spec_neg(spec_neg(bits)) == bits,
{
    assert((bits ^ SIGN_MASK) ^ SIGN_MASK == bits) by (bit_vector);
}

/// Negation preserves finiteness: the exponent field is untouched.
pub proof fn lemma_neg_keeps_finite(bits: u32)
    ensures
        spec_is_finite(spec_neg(bits)) == spec_is_finite(bits),
{
    assert(((bits ^ 0x8000_0000u32) & 0x7F80_0000u32) == (bits & 0x7F80_0000u32))
        by (bit_vector);
}

} // verus!
