//! Doubles carried by their bit pattern.

use vstd::prelude::*;

verus! {

/// An IEEE-754 binary64 value, held as its 64 bits.
///
/// The library moves such values around and tells finite ones from the rest;
/// arithmetic on them is left to the caller.
#[derive(Clone, Copy, Debug, PartialEq, Eq, Hash, Structural)]
pub struct Float64 {
    pub bits: u64,
}

impl Float64 {
    /// The eleven exponent bits, as a number.
    pub open spec fn exponent(self) -> u64 {
        (self.bits >> 52) & 0x7ff
    }

    /// Neither an infinity nor a NaN: the exponent bits are not all ones.
    pub open spec fn finite(self) -> bool {
        self.exponent() != 0x7ff
    }

    pub fn from_bits(bits: u64) -> (r: Float64)
        ensures
            r.bits == bits,
    {
        Float64 { bits }
    }

    pub fn to_bits(&self) -> (r: u64)
        ensures
            r == self.bits,
    {
        self.bits
    }

    pub fn is_finite(&self) -> (r: bool)
        ensures
            r == self.finite(),
    {
        (self.bits >> 52) & 0x7ff != 0x7ff
    }
}

} // verus!
