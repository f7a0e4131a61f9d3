//! IoStore package id

use vstd::prelude::*;
use crate::archive::{ByteReader, ByteWriter, stepped, parse_u64, ser_u64, lemma_parse_ints, lemma_ser_values};
use crate::error::Error;

verus! {

/// Package id
#[derive(Debug, Clone, Copy, PartialEq, Eq, Hash, Structural)]
pub struct PackageId {
    /// Id
    pub id: u64,
}

impl PackageId {
    /// The package id at the start of `s`.
    pub open spec fn spec_parse(s: Seq<u8>) -> Option<(Self, int)> {
        match parse_u64(s) {
            Some((id, k)) => Some((PackageId { id }, k)),
            None => None,
        }
    }

    /// The encoding of the package id.
    pub open spec fn spec_ser(self) -> Seq<u8> {
        ser_u64(self.id)
    }

    /// Read `PackageId` from a reader
    pub fn read(reader: &mut ByteReader) -> (res: Result<Self, Error>)
        ensures stepped(*old(reader), *final(reader), res, Self::spec_parse(old(reader).remaining())),
    {
        let id = reader.read_u64()?;
        Ok(PackageId { id })
    }

    /// Write `PackageId` to a writer
    pub fn write(&self, writer: &mut ByteWriter) -> (res: Result<(), Error>)
        ensures res is Ok, final(writer).data@ == old(writer).data@ + self.spec_ser(),
    {
        writer.write_u64(self.id);
        Ok(())
    }

    /// Reading back the encoding of a package id gives the package id.
    pub proof fn lemma_roundtrip(self, r: Seq<u8>)
        ensures
            self.spec_ser().len() == 8,
            Self::spec_parse(self.spec_ser() + r) == Some((self, 8int)),
    {
        lemma_parse_ints(0, 0, self.id, 0, 0, r);
        lemma_ser_values(0, 0, self.id, 0, 0);
    }
}

} // verus!
