//! Property flags

use vstd::prelude::*;

verus! {

/// The bits that property flags may hold: every known flag.
pub const PROPERTY_FLAGS_MASK: u64 = 0x00ff_ffdf_fb2f_6fff;

/// Property flags
#[derive(Debug, Clone, Copy, PartialEq, Eq, Hash, Structural)]
pub struct EPropertyFlags {
    /// The raw bits
    pub bits: u64,
}

impl EPropertyFlags {
    /// Flags with these bits, where every bit set is a known flag.
    pub fn from_bits(bits: u64) -> (f: Option<Self>)
        ensures
            f is Some <==> bits & !PROPERTY_FLAGS_MASK == 0,
            f matches Some(g) ==> g.bits == bits,
    {
        if bits & !PROPERTY_FLAGS_MASK == 0 {
            Some(EPropertyFlags { bits })
        } else {
            None
        }
    }

    /// Flags with exactly these bits
    pub fn from_bits_retain(bits: u64) -> (f: Self)
        ensures f.bits == bits,
    {
        EPropertyFlags { bits }
    }

    /// The raw bits
    pub fn bits(&self) -> (b: u64)
        ensures b == self.bits,
    {
        self.bits
    }
}

} // verus!
