//! .utoc

pub mod chunk;
pub mod header;
pub mod index;
pub mod lookup;
pub mod resource;
pub mod roundtrip;
pub mod walk;

use vstd::prelude::*;
use crate::archive::{ByteReader, ByteWriter, stepped, ser_u64, lemma_ser_values};
use crate::bytes::{zeros, le_value, le_bytes, be_value, be_bytes, pow256, u64_from_le, u32_from_le, u64_to_le, u32_to_le,
    lemma_le_value_pad, lemma_le_bytes_take, lemma_le_roundtrip, lemma_pow256_values, lemma_pow256_more, lemma_le_bytes_len};
use crate::error::Error;
use self::chunk::IoChunkHash;
use super::flags::IoStoreTocEntryMetaFlags;

verus! {

/// IoStore .utoc version
#[derive(Debug, Clone, Copy, PartialEq, Eq, Hash, Structural)]
pub enum EIoStoreTocVersion {
    /// Invalid
    Invalid,
    /// Initial version
    Initial,
    /// Directory Index added
    DirectoryIndex,
    /// Partition Size added
    PartitionSize,
    /// Perfect hashing added
    PerfectHash,
    /// Perfect hashing with overflow added
    PerfectHashWithOverflow,
    /// Latest
    Latest,
    /// Latest version plus one
    LatestPlusOne,
}

impl EIoStoreTocVersion {
    /// The numeric value of the version.
    pub open spec fn spec_value(self) -> u8 {
        match self {
            EIoStoreTocVersion::Invalid => 0,
            EIoStoreTocVersion::Initial => 1,
            EIoStoreTocVersion::DirectoryIndex => 2,
            EIoStoreTocVersion::PartitionSize => 3,
            EIoStoreTocVersion::PerfectHash => 4,
            EIoStoreTocVersion::PerfectHashWithOverflow => 5,
            EIoStoreTocVersion::Latest => 6,
            EIoStoreTocVersion::LatestPlusOne => 7,
        }
    }

    /// The numeric value of the version.
    pub fn value(self) -> (r: u8)
        ensures r == self.spec_value(),
    {
        match self {
            EIoStoreTocVersion::Invalid => 0,
            EIoStoreTocVersion::Initial => 1,
            EIoStoreTocVersion::DirectoryIndex => 2,
            EIoStoreTocVersion::PartitionSize => 3,
            EIoStoreTocVersion::PerfectHash => 4,
            EIoStoreTocVersion::PerfectHashWithOverflow => 5,
            EIoStoreTocVersion::Latest => 6,
            EIoStoreTocVersion::LatestPlusOne => 7,
        }
    }

    /// The version with a numeric value.
    pub open spec fn spec_from_u8(v: u8) -> Option<Self> {
        if v == 0 { Some(EIoStoreTocVersion::Invalid) }
        else if v == 1 { Some(EIoStoreTocVersion::Initial) }
        else if v == 2 { Some(EIoStoreTocVersion::DirectoryIndex) }
        else if v == 3 { Some(EIoStoreTocVersion::PartitionSize) }
        else if v == 4 { Some(EIoStoreTocVersion::PerfectHash) }
        else if v == 5 { Some(EIoStoreTocVersion::PerfectHashWithOverflow) }
        else if v == 6 { Some(EIoStoreTocVersion::Latest) }
        else if v == 7 { Some(EIoStoreTocVersion::LatestPlusOne) }
        else { None }
    }

    /// The version with a numeric value.
    pub fn try_from_u8(v: u8) -> (r: Option<Self>)
        ensures r == Self::spec_from_u8(v),
    {
        match v {
            0 => Some(EIoStoreTocVersion::Invalid),
            1 => Some(EIoStoreTocVersion::Initial),
            2 => Some(EIoStoreTocVersion::DirectoryIndex),
            3 => Some(EIoStoreTocVersion::PartitionSize),
            4 => Some(EIoStoreTocVersion::PerfectHash),
            5 => Some(EIoStoreTocVersion::PerfectHashWithOverflow),
            6 => Some(EIoStoreTocVersion::Latest),
            7 => Some(EIoStoreTocVersion::LatestPlusOne),
            _ => None,
        }
    }

    /// Every value of the version names it.
    pub proof fn lemma_value_roundtrip(self)
        ensures Self::spec_from_u8(self.spec_value()) == Some(self),
    {
    }
}

/// IoStore container id
#[derive(Debug, Clone, Copy, PartialEq, Eq, Hash, Structural)]
pub struct IoContainerId {
    /// Value
    pub value: u64,
}

impl IoContainerId {
    /// The container id at the start of `s`.
    pub open spec fn spec_parse(s: Seq<u8>) -> Option<(Self, int)> {
        if s.len() >= 8 { Some((IoContainerId { value: le_value(s.take(8)) as u64 }, 8)) } else { None }
    }

    /// The encoding of the container id.
    pub open spec fn spec_ser(self) -> Seq<u8> {
        ser_u64(self.value)
    }

    /// Read `IoContainerId` from a reader
    pub fn read(reader: &mut ByteReader) -> (res: Result<Self, Error>)
        ensures stepped(*old(reader), *final(reader), res, Self::spec_parse(old(reader).remaining())),
    {
        let value = reader.read_u64()?;
        Ok(IoContainerId { value })
    }

    /// Write `IoContainerId` to a writer
    pub fn write(&self, writer: &mut ByteWriter) -> (res: Result<(), Error>)
        ensures res is Ok, final(writer).data@ == old(writer).data@ + self.spec_ser(),
    {
        writer.write_u64(self.value);
        Ok(())
    }

    /// Reading back the encoding of a container id gives the container id.
    pub proof fn lemma_roundtrip(self, rest: Seq<u8>)
        ensures
            self.spec_ser().len() == 8,
            Self::spec_parse(self.spec_ser() + rest) == Some((self, 8int)),
    {
        crate::archive::lemma_parse_ints(0, 0, self.value, 0, 0, rest);
        lemma_ser_values(0, 0, self.value, 0, 0);
    }
}

/// IoStore combined offset and length
#[derive(Debug, Clone, Copy, PartialEq, Eq, Hash, Structural)]
pub struct IoOffsetAndLength {
    /// Offset
    pub offset: u64,
    /// Length
    pub length: u64,
}

impl IoOffsetAndLength {
    /// Ten bytes: a 40-bit big-endian offset, then a 40-bit big-endian length.
    pub open spec fn spec_decode(b: Seq<u8>) -> Self {
        IoOffsetAndLength {
            offset: be_value(b.subrange(0, 5)) as u64,
            length: be_value(b.subrange(5, 10)) as u64,
        }
    }

    /// The value at the start of `s`.
    pub open spec fn spec_parse(s: Seq<u8>) -> Option<(Self, int)> {
        if s.len() >= 10 { Some((Self::spec_decode(s.take(10)), 10)) } else { None }
    }

    /// The low 40 bits of the offset and of the length, most significant byte first.
    pub open spec fn spec_ser(self) -> Seq<u8> {
        be_bytes(self.offset as nat % pow256(5), 5) + be_bytes(self.length as nat % pow256(5), 5)
    }

    /// The 40-bit big-endian value of five bytes.
    fn be40(b0: u8, b1: u8, b2: u8, b3: u8, b4: u8) -> (r: u64)
        ensures r as nat == be_value(seq![b0, b1, b2, b3, b4]),
    {
        let a = [b4, b3, b2, b1, b0, 0u8, 0u8, 0u8];
        proof {
            let s = seq![b0, b1, b2, b3, b4];
            assert(a@ =~= s.reverse() + zeros(3));
            lemma_le_value_pad(s.reverse(), 3);
        }
        u64_from_le(a)
    }

    /// Read `IoOffsetAndLength` from a reader
    pub fn read(reader: &mut ByteReader) -> (res: Result<Self, Error>)
        ensures stepped(*old(reader), *final(reader), res, Self::spec_parse(old(reader).remaining())),
    {
        let v = reader.read_record(10)?;
        let offset = Self::be40(v[0], v[1], v[2], v[3], v[4]);
        let length = Self::be40(v[5], v[6], v[7], v[8], v[9]);
        proof {
            assert(seq![v@[0], v@[1], v@[2], v@[3], v@[4]] =~= v@.subrange(0, 5));
            assert(seq![v@[5], v@[6], v@[7], v@[8], v@[9]] =~= v@.subrange(5, 10));
        }
        Ok(IoOffsetAndLength { offset, length })
    }

    /// The five low bytes of a value, most significant first.
    fn be40_bytes(x: u64) -> (r: [u8; 5])
        ensures r@ == be_bytes(x as nat % pow256(5), 5),
    {
        let b = u64_to_le(x);
        proof {
            lemma_le_bytes_take(x as nat, 8, 5);
            lemma_le_bytes_len(x as nat, 8);
        }
        let r = [b[4], b[3], b[2], b[1], b[0]];
        assert(r@ =~= le_bytes(x as nat, 8).take(5).reverse());
        r
    }

    /// Write `IoOffsetAndLength` to a writer
    pub fn write(&self, writer: &mut ByteWriter) -> (res: Result<(), Error>)
        ensures res is Ok, final(writer).data@ == old(writer).data@ + self.spec_ser(),
    {
        let o = Self::be40_bytes(self.offset);
        let l = Self::be40_bytes(self.length);
        writer.write_bytes(&o);
        writer.write_bytes(&l);
        assert(final(writer).data@ =~= old(writer).data@ + self.spec_ser());
        Ok(())
    }

    /// Reading back the encoding gives the value, for offsets and lengths below 2^40.
    pub proof fn lemma_roundtrip(self, rest: Seq<u8>)
        requires
            self.offset < 0x100_0000_0000,
            self.length < 0x100_0000_0000,
        ensures
            self.spec_ser().len() == 10,
            Self::spec_parse(self.spec_ser() + rest) == Some((self, 10int)),
    {
        lemma_pow256_values();
        crate::bytes::lemma_be_roundtrip(self.offset as nat, 5);
        crate::bytes::lemma_be_roundtrip(self.length as nat, 5);
        let s = self.spec_ser();
        assert((s + rest).take(10) =~= s);
        assert(s.subrange(0, 5) =~= be_bytes(self.offset as nat, 5));
        assert(s.subrange(5, 10) =~= be_bytes(self.length as nat, 5));
    }
}

/// IoStore compression block entry
#[derive(Debug, Clone, Copy, PartialEq, Eq, Hash, Structural)]
pub struct IoStoreTocCompressedBlockEntry {
    /// Block offset
    pub offset: u64,
    /// Block compressed size
    pub compressed_size: u32,
    /// Block decompressed size
    pub decompressed_size: u32,
    /// Compresion method index
    pub compression_method_index: u8,
}

impl IoStoreTocCompressedBlockEntry {
    /// Twelve bytes: a 40-bit offset, a 24-bit compressed size, a 24-bit decompressed size
    /// (all little-endian), then the compression method index.
    pub open spec fn spec_decode(b: Seq<u8>) -> Self {
        IoStoreTocCompressedBlockEntry {
            offset: le_value(b.subrange(0, 5)) as u64,
            compressed_size: le_value(b.subrange(5, 8)) as u32,
            decompressed_size: le_value(b.subrange(8, 11)) as u32,
            compression_method_index: b[11],
        }
    }

    /// The entry at the start of `s`.
    pub open spec fn spec_parse(s: Seq<u8>) -> Option<(Self, int)> {
        if s.len() >= 12 { Some((Self::spec_decode(s.take(12)), 12)) } else { None }
    }

    /// The encoding the writer produces: the low 32 bits of the offset and a zero byte,
    /// the low 24 bits of each size, and the method index. The reader takes the fifth byte as
    /// bits 32 to 39 of the offset; the writer puts the low byte of the shifted compressed size
    /// there, which is always zero, so an offset of 2^32 or more does not survive a write.
    pub open spec fn spec_ser(self) -> Seq<u8> {
        le_bytes(self.offset as nat % pow256(4), 4) + seq![0u8]
            + le_bytes(self.compressed_size as nat % pow256(3), 3)
            + le_bytes(self.decompressed_size as nat % pow256(3), 3)
            + seq![self.compression_method_index]
    }

    /// Read `IoStoreTocCompressedBlockEntry` from a reader
    pub fn read(reader: &mut ByteReader) -> (res: Result<Self, Error>)
        ensures stepped(*old(reader), *final(reader), res, Self::spec_parse(old(reader).remaining())),
    {
        let v = reader.read_record(12)?;
        let oa = [v[0], v[1], v[2], v[3], v[4], 0u8, 0u8, 0u8];
        let ca = [v[5], v[6], v[7], 0u8];
        let da = [v[8], v[9], v[10], 0u8];
        proof {
            assert(oa@ =~= v@.subrange(0, 5) + zeros(3));
            lemma_le_value_pad(v@.subrange(0, 5), 3);
            assert(ca@ =~= v@.subrange(5, 8) + zeros(1));
            lemma_le_value_pad(v@.subrange(5, 8), 1);
            assert(da@ =~= v@.subrange(8, 11) + zeros(1));
            lemma_le_value_pad(v@.subrange(8, 11), 1);
        }
        let offset = u64_from_le(oa);
        let compressed_size = u32_from_le(ca);
        let decompressed_size = u32_from_le(da);
        let compression_method_index = v[11];
        Ok(IoStoreTocCompressedBlockEntry { offset, compressed_size, decompressed_size, compression_method_index })
    }

    /// Write `IoStoreTocCompressedBlockEntry` to a writer
    pub fn write(&self, writer: &mut ByteWriter) -> (res: Result<(), Error>)
        ensures res is Ok, final(writer).data@ == old(writer).data@ + self.spec_ser(),
    {
        let o = u64_to_le(self.offset);
        let c = u32_to_le(self.compressed_size);
        let d = u32_to_le(self.decompressed_size);
        proof {
            lemma_le_bytes_take(self.offset as nat, 8, 4);
            lemma_le_bytes_take(self.compressed_size as nat, 4, 3);
            lemma_le_bytes_take(self.decompressed_size as nat, 4, 3);
            lemma_le_bytes_len(self.offset as nat, 8);
            lemma_le_bytes_len(self.compressed_size as nat, 4);
            lemma_le_bytes_len(self.decompressed_size as nat, 4);
        }
        let value = [o[0], o[1], o[2], o[3], 0u8, c[0], c[1], c[2], d[0], d[1], d[2], self.compression_method_index];
        assert(value@ =~= self.spec_ser());
        writer.write_bytes(&value);
        Ok(())
    }

    /// Reading back the encoding gives the entry, for offsets below 2^32 and sizes below 2^24.
    pub proof fn lemma_roundtrip(self, rest: Seq<u8>)
        requires
            self.offset < 0x1_0000_0000,
            self.compressed_size < 0x100_0000,
            self.decompressed_size < 0x100_0000,
        ensures
            self.spec_ser().len() == 12,
            Self::spec_parse(self.spec_ser() + rest) == Some((self, 12int)),
    {
        lemma_pow256_values();
        lemma_pow256_more();
        lemma_le_roundtrip(self.offset as nat, 4);
        lemma_le_roundtrip(self.compressed_size as nat, 3);
        lemma_le_roundtrip(self.decompressed_size as nat, 3);
        let s = self.spec_ser();
        assert((s + rest).take(12) =~= s);
        let o4 = le_bytes(self.offset as nat, 4);
        assert(s.subrange(0, 5) =~= o4 + zeros(1));
        lemma_le_value_pad(o4, 1);
        assert(s.subrange(5, 8) =~= le_bytes(self.compressed_size as nat, 3));
        assert(s.subrange(8, 11) =~= le_bytes(self.decompressed_size as nat, 3));
    }
}

/// IoStore .utoc entry metadata
#[derive(Debug, Clone, Copy, PartialEq, Eq, Hash)]
pub struct IoStoreTocEntryMeta {
    /// Chunk hash
    pub chunk_hash: IoChunkHash,
    /// Flags
    pub flags: IoStoreTocEntryMetaFlags,
}

impl IoStoreTocEntryMeta {
    /// The metadata at the start of `s`: 32 hash bytes and a flags byte.
    pub open spec fn spec_parse(s: Seq<u8>) -> Option<(Seq<u8>, u8, int)> {
        if s.len() >= 33 { Some((s.take(32), s[32], 33)) } else { None }
    }

    /// The encoding of the metadata.
    pub open spec fn spec_ser(self) -> Seq<u8> {
        self.chunk_hash.value@ + seq![self.flags.bits]
    }

    /// Read `IoStoreTocEntryMetadata` from a reader
    pub fn read(reader: &mut ByteReader) -> (res: Result<Self, Error>)
        ensures
            final(reader).data@ == old(reader).data@,
            match res {
                Ok(m) => Self::spec_parse(old(reader).remaining())
                    == Some((m.chunk_hash.value@, m.flags.bits, final(reader).pos - old(reader).pos)),
                Err(_) => Self::spec_parse(old(reader).remaining()) is None,
            },
    {
        let ghost s = old(reader).remaining();
        let chunk_hash = IoChunkHash::read(reader)?;
        assert(reader.remaining() =~= s.skip(32));
        let flags = IoStoreTocEntryMetaFlags::from_bits_retain(reader.read_u8()?);
        Ok(IoStoreTocEntryMeta { chunk_hash, flags })
    }

    /// Write `IoStoreTocEntryMetadata` to a writer
    pub fn write(&self, writer: &mut ByteWriter) -> (res: Result<(), Error>)
        ensures res is Ok, final(writer).data@ == old(writer).data@ + self.spec_ser(),
    {
        self.chunk_hash.write(writer)?;
        writer.write_u8(self.flags.bits());
        assert(final(writer).data@ =~= old(writer).data@ + self.spec_ser());
        Ok(())
    }

    /// Reading back the encoding gives the hash and flags.
    pub proof fn lemma_roundtrip(self, rest: Seq<u8>)
        ensures
            self.spec_ser().len() == 33,
            Self::spec_parse(self.spec_ser() + rest) == Some((self.chunk_hash.value@, self.flags.bits, 33int)),
    {
        let s = self.spec_ser();
        assert((s + rest).take(32) =~= self.chunk_hash.value@);
    }
}

} // verus!

verus! {

impl crate::archive::Record for IoOffsetAndLength {
    type Model = IoOffsetAndLength;

    open spec fn model(v: IoOffsetAndLength) -> IoOffsetAndLength { v }

    open spec fn parse_model(s: Seq<u8>) -> Option<(IoOffsetAndLength, int)> { IoOffsetAndLength::spec_parse(s) }

    open spec fn ser_model(m: IoOffsetAndLength) -> Seq<u8> { m.spec_ser() }

    fn read_from(reader: &mut ByteReader) -> (res: Result<IoOffsetAndLength, Error>) {
        IoOffsetAndLength::read(reader)
    }

    fn write_to(&self, writer: &mut ByteWriter) {
        let _ = self.write(writer);
    }
}

impl crate::archive::Record for IoStoreTocCompressedBlockEntry {
    type Model = IoStoreTocCompressedBlockEntry;

    open spec fn model(v: IoStoreTocCompressedBlockEntry) -> IoStoreTocCompressedBlockEntry { v }

    open spec fn parse_model(s: Seq<u8>) -> Option<(IoStoreTocCompressedBlockEntry, int)> {
        IoStoreTocCompressedBlockEntry::spec_parse(s)
    }

    open spec fn ser_model(m: IoStoreTocCompressedBlockEntry) -> Seq<u8> { m.spec_ser() }

    fn read_from(reader: &mut ByteReader) -> (res: Result<IoStoreTocCompressedBlockEntry, Error>) {
        IoStoreTocCompressedBlockEntry::read(reader)
    }

    fn write_to(&self, writer: &mut ByteWriter) {
        let _ = self.write(writer);
    }
}

impl crate::archive::Record for IoStoreTocEntryMeta {
    type Model = (Seq<u8>, u8);

    open spec fn model(v: IoStoreTocEntryMeta) -> (Seq<u8>, u8) { (v.chunk_hash.value@, v.flags.bits) }

    open spec fn parse_model(s: Seq<u8>) -> Option<((Seq<u8>, u8), int)> {
        match IoStoreTocEntryMeta::spec_parse(s) {
            Some((h, b, k)) => Some(((h, b), k)),
            None => None,
        }
    }

    open spec fn ser_model(m: (Seq<u8>, u8)) -> Seq<u8> { m.0 + seq![m.1] }

    fn read_from(reader: &mut ByteReader) -> (res: Result<IoStoreTocEntryMeta, Error>) {
        IoStoreTocEntryMeta::read(reader)
    }

    fn write_to(&self, writer: &mut ByteWriter) {
        let _ = self.write(writer);
    }
}

} // verus!
