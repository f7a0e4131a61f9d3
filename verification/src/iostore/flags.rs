//! Various iostore flags

use vstd::prelude::*;

verus! {

/// IoStore container flags
#[derive(Debug, Clone, Copy, PartialEq, Eq, Hash, Structural)]
pub struct EIoContainerFlags {
    /// The raw bits
    pub bits: u8,
}

impl EIoContainerFlags {
    /// None
    pub const NONE: u8 = 0x0;
    /// Compressed
    pub const COMPRESSED: u8 = 0x1;
    /// Encrypted
    pub const ENCRYPTED: u8 = 0x2;
    /// Signed
    pub const SIGNED: u8 = 0x4;
    /// Indexed
    pub const INDEXED: u8 = 0x8;

    /// Flags with exactly these bits
    pub fn from_bits_retain(bits: u8) -> (f: Self)
        ensures f.bits == bits,
    {
        EIoContainerFlags { bits }
    }

    /// The raw bits
    pub fn bits(&self) -> (b: u8)
        ensures b == self.bits,
    {
        self.bits
    }

    /// Whether all the bits of `flag` are set
    pub fn contains(&self, flag: u8) -> (b: bool)
        ensures b == (self.bits & flag == flag),
    {
        self.bits & flag == flag
    }

    /// Sets the bits of `flag`
    pub fn insert(&mut self, flag: u8)
        ensures final(self).bits == old(self).bits | flag,
    {
        self.bits = self.bits | flag;
    }

    /// Clears the bits of `flag`
    pub fn remove(&mut self, flag: u8)
        ensures final(self).bits == old(self).bits & !flag,
    {
        self.bits = self.bits & !flag;
    }
}

/// IoStore .utoc entry metadata flags
#[derive(Debug, Clone, Copy, PartialEq, Eq, Hash, Structural)]
pub struct IoStoreTocEntryMetaFlags {
    /// The raw bits
    pub bits: u8,
}

impl IoStoreTocEntryMetaFlags {
    /// None
    pub const NONE: u8 = 0x0;
    /// Compressed
    pub const COMPRESSED: u8 = 0x1;
    /// Memory mapped
    pub const MEMORY_MAPPED: u8 = 0x2;

    /// Flags with exactly these bits
    pub fn from_bits_retain(bits: u8) -> (f: Self)
        ensures f.bits == bits,
    {
        IoStoreTocEntryMetaFlags { bits }
    }

    /// The raw bits
    pub fn bits(&self) -> (b: u8)
        ensures b == self.bits,
    {
        self.bits
    }
}

/// IoStore export filter flags
#[derive(Debug, Clone, Copy, PartialEq, Eq, Hash, Structural)]
pub struct EExportFilterFlags {
    /// The raw bits
    pub bits: u8,
}

impl EExportFilterFlags {
    /// None
    pub const NONE: u8 = 0x0;
    /// Not for client
    pub const NOT_FOR_CLIENT: u8 = 0x1;
    /// Not for server
    pub const NOT_FOR_SERVER: u8 = 0x2;

    /// Flags with exactly these bits
    pub fn from_bits_retain(bits: u8) -> (f: Self)
        ensures f.bits == bits,
    {
        EExportFilterFlags { bits }
    }

    /// The raw bits
    pub fn bits(&self) -> (b: u8)
        ensures b == self.bits,
    {
        self.bits
    }

    /// Whether all the bits of `flag` are set
    pub fn contains(&self, flag: u8) -> (b: bool)
        ensures b == (self.bits & flag == flag),
    {
        self.bits & flag == flag
    }
}

/// Object flags
#[derive(Debug, Clone, Copy, PartialEq, Eq, Hash, Structural)]
pub struct EObjectFlags {
    /// The raw bits
    pub bits: u32,
}

impl EObjectFlags {
    /// Flags with exactly these bits
    pub fn from_bits_retain(bits: u32) -> (f: Self)
        ensures f.bits == bits,
    {
        EObjectFlags { bits }
    }

    /// The raw bits
    pub fn bits(&self) -> (b: u32)
        ensures b == self.bits,
    {
        self.bits
    }

    /// Flags with these bits, where every bit set is a known flag.
    pub fn from_bits(bits: u32) -> (f: Option<Self>)
        ensures
            f is Some <==> bits & !crate::exports::base_export::OBJECT_FLAGS_MASK == 0,
            f matches Some(g) ==> g.bits == bits,
    {
        if bits & !crate::exports::base_export::OBJECT_FLAGS_MASK == 0 {
            Some(EObjectFlags { bits })
        } else {
            None
        }
    }
}

} // verus!
