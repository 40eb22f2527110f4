//! One price, as handed over by the price source.

use vstd::prelude::*;

verus! {

/// One successfully fetched price.
///
/// The price is a 64-bit binary floating-point number, held here as its
/// IEEE 754 bit pattern. The library stores and orders samples and never
/// computes with them.
#[derive(Clone, Copy, Debug, PartialEq, Eq, Structural)]
pub struct Sample {
    /// The bit pattern of the price.
    pub bits: u64,
}

impl Sample {
    /// The sample with the given bit pattern.
    pub fn from_bits(bits: u64) -> (sample: Sample)
        ensures
            sample.bits == bits,
    {
        Sample { bits }
    }

    /// The bit pattern of the price.
    pub fn to_bits(self) -> (bits: u64)
        ensures
            bits == self.bits,
    {
        self.bits
    }

    /// Positive zero, whose bit pattern is all zeros: the price that stands
    /// for one whose text was not a number.
    pub fn zero() -> (sample: Sample)
        ensures
            sample.bits == 0,
    {
        Sample { bits: 0 }
    }
}

/// A copy of a list of samples, in the same order.
pub(crate) fn copy_samples(samples: &Vec<Sample>) -> (copy: Vec<Sample>)
    ensures
        copy@ == samples@,
{
    let mut copy: Vec<Sample> = Vec::new();
    let mut i: usize = 0;
    while i < samples.len()
        invariant
            i <= samples.len(),
            copy@ == samples@.take(i as int),
        decreases samples.len() - i,
    {
        copy.push(samples[i]);
        assert(samples@.take(i + 1) == samples@.take(i as int).push(samples@[i as int]));
        i = i + 1;
    }
    assert(samples@.take(samples.len() as int) == samples@);
    copy
}

} // verus!
