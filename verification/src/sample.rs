//! Measured values.

use vstd::prelude::*;

verus! {

/// One measured value: an IEEE 754 binary64 number, held as its bit pattern.
///
/// Two samples are equal when their bit patterns are, so a sample equals
/// itself even where the number it stands for is not comparable.
#[derive(Copy, Clone, Debug, Eq, PartialEq, Structural)]
pub struct Sample {
    pub bits: u64,
}

impl Sample {
    /// The sample with the given bit pattern.
    pub fn from_bits(bits: u64) -> (sample: Sample)
        ensures
            sample.bits == bits,
    {
        Sample { bits }
    }

    /// The bit pattern of this sample.
    pub fn to_bits(&self) -> (bits: u64)
        ensures
            bits == self.bits,
    {
        self.bits
    }
}

} // verus!
