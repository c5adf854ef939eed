//! Real numbers as the library carries them.
//!
//! Nothing here computes with real numbers. A weight set by the caller, or a
//! coordinate written by the engine, is carried as the IEEE 754
//! single-precision bit pattern of its value and so passes through unchanged.

use vstd::prelude::*;

verus! {

/// A single-precision real number, held as its IEEE 754 bit pattern.
#[derive(Clone, Copy, Debug, PartialEq, Eq, Structural)]
pub struct Scalar {
    pub bits: u32,
}

impl Scalar {
    /// The number with the given bit pattern.
    pub fn from_bits(bits: u32) -> (scalar: Scalar)
        ensures
            scalar.bits == bits,
    {
        Scalar { bits }
    }

    /// The bit pattern of the number.
    pub fn to_bits(&self) -> (bits: u32)
        ensures
            bits == self.bits,
    {
        self.bits
    }
}

} // verus!
