use vstd::prelude::*;

verus! {

/// A binary64 floating-point quantity, held by its IEEE 754 bit pattern.
///
/// The library moves such quantities from upstream records into the
/// normalized ones unchanged and never computes with them, so the bit
/// pattern is all it needs; `f64::from_bits` gives the number back.
#[derive(Clone, Copy, Debug, PartialEq, Eq, Structural)]
pub struct Float64 {
    pub bits: u64,
}

impl Float64 {
    /// The quantity whose IEEE 754 bit pattern is `bits`.
    pub fn from_bits(bits: u64) -> (r: Float64)
        ensures
            r.bits == bits,
    {
        Float64 { bits }
    }

    /// The IEEE 754 bit pattern of the quantity.
    pub fn to_bits(&self) -> (r: u64)
        ensures
            r == self.bits,
    {
        self.bits
    }
}

} // verus!
