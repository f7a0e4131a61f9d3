//! .utoc header

use vstd::prelude::*;
use crate::archive::{ByteReader, ByteWriter, ser_u32, ser_u64, lemma_ser_values, u32_at, u64_at};
use crate::bytes::le_value;
use crate::error::{Error, IoErrorKind, IoStoreError};
use crate::iostore::flags::EIoContainerFlags;
use crate::types::Guid;
use super::{EIoStoreTocVersion, IoContainerId};

verus! {

/// The magic bytes that open a .utoc file.
pub open spec fn toc_magic() -> Seq<u8> {
    seq![0x2du8, 0x3du8, 0x3du8, 0x2du8, 0x2du8, 0x3du8, 0x3du8, 0x2du8, 0x2du8, 0x3du8, 0x3du8, 0x2du8, 0x2du8, 0x3du8, 0x3du8, 0x2du8]
}

/// IoStore .utoc header
#[derive(Debug, Clone, Copy, PartialEq, Eq, Hash)]
pub struct IoStoreTocHeader {
    /// Version
    pub version: EIoStoreTocVersion,
    /// Reserved
    pub reserved: [u8; 3],
    /// Header size
    pub header_size: u32,
    /// Entry count
    pub entry_count: u32,
    /// Compressed block entry count
    pub compressed_block_entry_count: u32,
    /// Compressed block entry size
    pub compressed_block_entry_size: u32,
    /// Compression method name count
    pub compression_method_name_count: u32,
    /// Compression method name length
    pub compression_method_name_length: u32,
    /// Compression block size
    pub compression_block_size: u32,
    /// Directory index size
    pub directory_index_size: u32,
    /// Partition count
    pub partition_count: u32,
    /// Container id
    pub container_id: IoContainerId,
    /// Encryption key guid
    pub encryption_key_guid: Guid,
    /// Container flags
    pub container_flags: EIoContainerFlags,
    /// Reserved
    pub reserved_0: [u8; 3],
    /// Chunk perfect hash seeds count
    pub chunk_perfect_hash_seeds_count: u32,
    /// Partition size
    pub partition_size: u64,
    /// Chunks without perfect hash count
    pub chunks_without_perfect_hash_count: u32,
    /// Reserved
    pub reserved_1: [u8; 44],
}

/// The 32-bit little-endian value at `off` in `b`.
pub open spec fn u32_field(b: Seq<u8>, off: int) -> u32 {
    le_value(b.subrange(off, off + 4)) as u32
}

impl IoStoreTocHeader {
    /// The size of the header, magic included.
    pub open spec fn spec_size() -> u32 { 144 }

    /// The header held by 144 bytes whose magic, version and size were checked.
    pub open spec fn spec_decode(b: Seq<u8>, version: EIoStoreTocVersion) -> Self {
        let old_layout = version.spec_value() < EIoStoreTocVersion::PartitionSize.spec_value();
        IoStoreTocHeader {
            version,
            reserved: [b[17], b[18], b[19]],

            header_size: u32_field(b, 20),
            entry_count: u32_field(b, 24),
            compressed_block_entry_count: u32_field(b, 28),
            compressed_block_entry_size: u32_field(b, 32),
            compression_method_name_count: u32_field(b, 36),
            compression_method_name_length: u32_field(b, 40),
            compression_block_size: u32_field(b, 44),
            directory_index_size: u32_field(b, 48),
            partition_count: if old_layout { 1 } else { u32_field(b, 52) },
            container_id: IoContainerId { value: le_value(b.subrange(56, 64)) as u64 },
            encryption_key_guid: [b[64], b[65], b[66], b[67], b[68], b[69], b[70], b[71], b[72], b[73], b[74], b[75], b[76], b[77], b[78], b[79]],
            container_flags: EIoContainerFlags { bits: b[80] },
            reserved_0: [b[81], b[82], b[83]],
            chunk_perfect_hash_seeds_count: u32_field(b, 84),
            partition_size: if old_layout { u64::MAX } else { le_value(b.subrange(88, 96)) as u64 },
            chunks_without_perfect_hash_count: u32_field(b, 96),
            reserved_1: [b[100], b[101], b[102], b[103], b[104], b[105], b[106], b[107], b[108], b[109], b[110], b[111], b[112], b[113], b[114], b[115], b[116], b[117], b[118], b[119], b[120], b[121], b[122], b[123], b[124], b[125], b[126], b[127], b[128], b[129], b[130], b[131], b[132], b[133], b[134], b[135], b[136], b[137], b[138], b[139], b[140], b[141], b[142], b[143]],
        }
    }

    /// The header at the start of `s`, if the magic, version and size are valid.
    #[verifier::opaque]
    pub open spec fn spec_parse(s: Seq<u8>) -> Option<(Self, int)> {
        if s.len() >= 144 && s.take(16) == toc_magic() && u32_field(s, 20) == 144 {
            match EIoStoreTocVersion::spec_from_u8(s[16]) {
                Some(v) => Some((Self::spec_decode(s.take(144), v), 144)),
                None => None,
            }
        } else {
            None
        }
    }

    /// The first 20 bytes of the encoding: magic, version and reserved bytes.
    pub open spec fn spec_ser_head(self) -> Seq<u8> {
        toc_magic() + seq![self.version.spec_value()] + self.reserved@
    }

    /// The next 36 bytes of the encoding: the sizes and counts.
    pub open spec fn spec_ser_counts(self) -> Seq<u8> {
        ser_u32(self.header_size)
            + ser_u32(self.entry_count)
            + ser_u32(self.compressed_block_entry_count)
            + ser_u32(self.compressed_block_entry_size)
            + ser_u32(self.compression_method_name_count)
            + ser_u32(self.compression_method_name_length)
            + ser_u32(self.compression_block_size)
            + ser_u32(self.directory_index_size)
            + ser_u32(self.partition_count)
    }

    /// The last 88 bytes of the encoding.
    pub open spec fn spec_ser_tail(self) -> Seq<u8> {
        ser_u64(self.container_id.value) + self.encryption_key_guid@
            + seq![self.container_flags.bits] + self.reserved_0@
            + ser_u32(self.chunk_perfect_hash_seeds_count) + ser_u64(self.partition_size)
            + ser_u32(self.chunks_without_perfect_hash_count) + self.reserved_1@
    }

    /// The encoding of the header.
    pub open spec fn spec_ser(self) -> Seq<u8> {
        self.spec_ser_head() + self.spec_ser_counts() + self.spec_ser_tail()
    }

    /// Read `IoStoreTocHeader` from a reader
    pub fn read(reader: &mut ByteReader) -> (res: Result<IoStoreTocHeader, Error>)
        ensures
            final(reader).data@ == old(reader).data@,
            match res {
                Ok(h) => Self::spec_parse(old(reader).remaining()) == Some((h, final(reader).pos - old(reader).pos)),
                Err(e) => Self::spec_parse(old(reader).remaining()) is None,
            },
            ({
                let s = old(reader).remaining();
                res matches Err(e) ==> {
                    &&& s.len() < 16 ==> e == Error::Io(IoErrorKind::UnexpectedEof)
                    &&& (s.len() >= 16 && s.take(16) != toc_magic()) ==> (e matches Error::IoStore(IoStoreError::InvalidTocMagic(m)) && m@ == s.take(16))
                    &&& (s.len() >= 17 && s.take(16) == toc_magic() && EIoStoreTocVersion::spec_from_u8(s[16]) is None)
                        ==> e is InvalidEnumValue
                    &&& (s.len() >= 24 && s.take(16) == toc_magic() && EIoStoreTocVersion::spec_from_u8(s[16]) is Some
                        && u32_field(s, 20) != 144) ==> e == Error::IoStore(IoStoreError::InvalidTocHeaderSize(144, u32_field(s, 20)))
                }
            }),
    {
        reveal(IoStoreTocHeader::spec_parse);
        let ghost s = old(reader).remaining();
        let magic = reader.read_bytes(16)?;
        assert(magic@ =~= s.take(16));
        let expected = toc_magic_bytes();
        if !bytes_eq(magic.as_slice(), &expected) {
            return Err(Error::IoStore(IoStoreError::InvalidTocMagic(magic)));
        }
        let ghost s1 = reader.remaining();
        assert(s1 =~= s.skip(16));
        let vb = reader.read_u8()?;
        let version = match EIoStoreTocVersion::try_from_u8(vb) {
            Some(v) => v,
            None => { return Err(Error::invalid_enum("EIoStoreTocVersion")); },
        };
        assert(reader.remaining() =~= s.skip(17));
        let r3 = reader.read_bytes(3)?;
        assert(reader.remaining() =~= s.skip(20));
        let header_size = reader.read_u32()?;
        assert(s.skip(20).take(4) =~= s.subrange(20, 24));
        if header_size != 144 {
            return Err(Error::IoStore(IoStoreError::InvalidTocHeaderSize(144, header_size)));
        }
        assert(reader.remaining() =~= s.skip(24));
        let start = reader.pos - 24;
        reader.pos = start;
        assert(reader.remaining() =~= s);
        let t = reader.read_record(144)?;
        let h = Self::decode(t.as_slice(), version);
        Ok(h)
    }

    /// Decodes 144 bytes of a header of the given version.
    fn decode(t: &[u8], version: EIoStoreTocVersion) -> (h: Self)
        requires t@.len() == 144,
        ensures h == Self::spec_decode(t@, version),
    {
        let old_layout = version.value() < EIoStoreTocVersion::PartitionSize.value();
        IoStoreTocHeader {
            version,
            reserved: [t[17], t[18], t[19]],
            header_size: u32_at(t, 20),
            entry_count: u32_at(t, 24),
            compressed_block_entry_count: u32_at(t, 28),
            compressed_block_entry_size: u32_at(t, 32),
            compression_method_name_count: u32_at(t, 36),
            compression_method_name_length: u32_at(t, 40),
            compression_block_size: u32_at(t, 44),
            directory_index_size: u32_at(t, 48),
            partition_count: if old_layout { 1 } else { u32_at(t, 52) },
            container_id: IoContainerId { value: u64_at(t, 56) },
            encryption_key_guid: [t[64], t[65], t[66], t[67], t[68], t[69], t[70], t[71], t[72], t[73], t[74], t[75], t[76], t[77], t[78], t[79]],
            container_flags: EIoContainerFlags::from_bits_retain(t[80]),
            reserved_0: [t[81], t[82], t[83]],
            chunk_perfect_hash_seeds_count: u32_at(t, 84),
            partition_size: if old_layout { u64::MAX } else { u64_at(t, 88) },
            chunks_without_perfect_hash_count: u32_at(t, 96),
            reserved_1: [t[100], t[101], t[102], t[103], t[104], t[105], t[106], t[107], t[108], t[109], t[110], t[111], t[112], t[113], t[114], t[115], t[116], t[117], t[118], t[119], t[120], t[121], t[122], t[123], t[124], t[125], t[126], t[127], t[128], t[129], t[130], t[131], t[132], t[133], t[134], t[135], t[136], t[137], t[138], t[139], t[140], t[141], t[142], t[143]],
        }
    }

    /// Write an `IoStoreTocHeader` to a writer
    pub fn write(&self, writer: &mut ByteWriter) -> (res: Result<(), Error>)
        ensures res is Ok, final(writer).data@ == old(writer).data@ + self.spec_ser(),
    {
        let magic = toc_magic_bytes();
        writer.write_bytes(&magic);
        writer.write_u8(self.version.value());
        writer.write_bytes(&self.reserved);
        assert(writer.data@ =~= old(writer).data@ + self.spec_ser_head());
        let ghost d1 = writer.data@;
        writer.write_u32(self.header_size);
        assert(writer.data@ =~= d1 + (ser_u32(self.header_size)));
        writer.write_u32(self.entry_count);
        assert(writer.data@ =~= d1 + (ser_u32(self.header_size) + ser_u32(self.entry_count)));
        writer.write_u32(self.compressed_block_entry_count);
        assert(writer.data@ =~= d1 + (ser_u32(self.header_size) + ser_u32(self.entry_count) + ser_u32(self.compressed_block_entry_count)));
        writer.write_u32(self.compressed_block_entry_size);
        assert(writer.data@ =~= d1 + (ser_u32(self.header_size) + ser_u32(self.entry_count) + ser_u32(self.compressed_block_entry_count) + ser_u32(self.compressed_block_entry_size)));
        writer.write_u32(self.compression_method_name_count);
        assert(writer.data@ =~= d1 + (ser_u32(self.header_size) + ser_u32(self.entry_count) + ser_u32(self.compressed_block_entry_count) + ser_u32(self.compressed_block_entry_size) + ser_u32(self.compression_method_name_count)));
        writer.write_u32(self.compression_method_name_length);
        assert(writer.data@ =~= d1 + (ser_u32(self.header_size) + ser_u32(self.entry_count) + ser_u32(self.compressed_block_entry_count) + ser_u32(self.compressed_block_entry_size) + ser_u32(self.compression_method_name_count) + ser_u32(self.compression_method_name_length)));
        writer.write_u32(self.compression_block_size);
        assert(writer.data@ =~= d1 + (ser_u32(self.header_size) + ser_u32(self.entry_count) + ser_u32(self.compressed_block_entry_count) + ser_u32(self.compressed_block_entry_size) + ser_u32(self.compression_method_name_count) + ser_u32(self.compression_method_name_length) + ser_u32(self.compression_block_size)));
        writer.write_u32(self.directory_index_size);
        assert(writer.data@ =~= d1 + (ser_u32(self.header_size) + ser_u32(self.entry_count) + ser_u32(self.compressed_block_entry_count) + ser_u32(self.compressed_block_entry_size) + ser_u32(self.compression_method_name_count) + ser_u32(self.compression_method_name_length) + ser_u32(self.compression_block_size) + ser_u32(self.directory_index_size)));
        writer.write_u32(self.partition_count);
        assert(writer.data@ =~= d1 + (ser_u32(self.header_size) + ser_u32(self.entry_count) + ser_u32(self.compressed_block_entry_count) + ser_u32(self.compressed_block_entry_size) + ser_u32(self.compression_method_name_count) + ser_u32(self.compression_method_name_length) + ser_u32(self.compression_block_size) + ser_u32(self.directory_index_size) + ser_u32(self.partition_count)));
        let ghost d2 = writer.data@;
        self.container_id.write(writer)?;
        writer.write_bytes(&self.encryption_key_guid);
        writer.write_u8(self.container_flags.bits());
        writer.write_bytes(&self.reserved_0);
        assert(writer.data@ =~= d2 + (ser_u64(self.container_id.value) + self.encryption_key_guid@
            + seq![self.container_flags.bits] + self.reserved_0@));
        writer.write_u32(self.chunk_perfect_hash_seeds_count);
        writer.write_u64(self.partition_size);
        writer.write_u32(self.chunks_without_perfect_hash_count);
        writer.write_bytes(&self.reserved_1);
        assert(writer.data@ =~= d2 + self.spec_ser_tail());
        assert(writer.data@ =~= old(writer).data@ + self.spec_ser());
        Ok(())
    }

    proof fn lemma_counts(self)
        ensures
            self.spec_ser_counts().len() == 36,
            u32_field(self.spec_ser_counts(), 0) == self.header_size,
            u32_field(self.spec_ser_counts(), 4) == self.entry_count,
            u32_field(self.spec_ser_counts(), 8) == self.compressed_block_entry_count,
            u32_field(self.spec_ser_counts(), 12) == self.compressed_block_entry_size,
            u32_field(self.spec_ser_counts(), 16) == self.compression_method_name_count,
            u32_field(self.spec_ser_counts(), 20) == self.compression_method_name_length,
            u32_field(self.spec_ser_counts(), 24) == self.compression_block_size,
            u32_field(self.spec_ser_counts(), 28) == self.directory_index_size,
            u32_field(self.spec_ser_counts(), 32) == self.partition_count,
    {
        let c = self.spec_ser_counts();
        lemma_ser_values(0, self.header_size, 0, 0, 0);
        lemma_ser_values(0, self.entry_count, 0, 0, 0);
        lemma_ser_values(0, self.compressed_block_entry_count, 0, 0, 0);
        lemma_ser_values(0, self.compressed_block_entry_size, 0, 0, 0);
        lemma_ser_values(0, self.compression_method_name_count, 0, 0, 0);
        lemma_ser_values(0, self.compression_method_name_length, 0, 0, 0);
        lemma_ser_values(0, self.compression_block_size, 0, 0, 0);
        lemma_ser_values(0, self.directory_index_size, 0, 0, 0);
        lemma_ser_values(0, self.partition_count, 0, 0, 0);
        assert(c.subrange(0, 4) =~= ser_u32(self.header_size));
        assert(c.subrange(4, 8) =~= ser_u32(self.entry_count));
        assert(c.subrange(8, 12) =~= ser_u32(self.compressed_block_entry_count));
        assert(c.subrange(12, 16) =~= ser_u32(self.compressed_block_entry_size));
        assert(c.subrange(16, 20) =~= ser_u32(self.compression_method_name_count));
        assert(c.subrange(20, 24) =~= ser_u32(self.compression_method_name_length));
        assert(c.subrange(24, 28) =~= ser_u32(self.compression_block_size));
        assert(c.subrange(28, 32) =~= ser_u32(self.directory_index_size));
        assert(c.subrange(32, 36) =~= ser_u32(self.partition_count));
    }

    proof fn lemma_tail(self)
        ensures
            self.spec_ser_tail().len() == 88,
            le_value(self.spec_ser_tail().subrange(0, 8)) == self.container_id.value,
            self.spec_ser_tail().subrange(8, 24) == self.encryption_key_guid@,
            self.spec_ser_tail()[24] == self.container_flags.bits,
            self.spec_ser_tail().subrange(25, 28) == self.reserved_0@,
            u32_field(self.spec_ser_tail(), 28) == self.chunk_perfect_hash_seeds_count,
            le_value(self.spec_ser_tail().subrange(32, 40)) == self.partition_size,
            u32_field(self.spec_ser_tail(), 40) == self.chunks_without_perfect_hash_count,
            self.spec_ser_tail().subrange(44, 88) == self.reserved_1@,
    {
        let c = self.spec_ser_tail();
        lemma_ser_values(0, self.chunk_perfect_hash_seeds_count, self.container_id.value, 0, 0);
        lemma_ser_values(0, self.chunks_without_perfect_hash_count, self.partition_size, 0, 0);
        assert(c.subrange(0, 8) =~= ser_u64(self.container_id.value));
        assert(c.subrange(8, 24) =~= self.encryption_key_guid@);
        assert(c.subrange(25, 28) =~= self.reserved_0@);
        assert(c.subrange(28, 32) =~= ser_u32(self.chunk_perfect_hash_seeds_count));
        assert(c.subrange(32, 40) =~= ser_u64(self.partition_size));
        assert(c.subrange(40, 44) =~= ser_u32(self.chunks_without_perfect_hash_count));
        assert(c.subrange(44, 88) =~= self.reserved_1@);
    }

    /// A header takes 144 bytes, when there are that many.
    pub proof fn lemma_parse_len(s: Seq<u8>)
        ensures Self::spec_parse(s) matches Some((_, k)) ==> k == 144 && s.len() >= 144,
    {
        reveal(IoStoreTocHeader::spec_parse);
    }

    /// Reading back the encoding of a header of size 144 and of a version with
    /// partitions gives the header.
    #[verifier::spinoff_prover]
    #[verifier::rlimit(60)]
    pub proof fn lemma_roundtrip(self, rest: Seq<u8>)
        requires
            self.header_size == 144,
            self.version.spec_value() >= EIoStoreTocVersion::PartitionSize.spec_value(),
        ensures
            self.spec_ser().len() == 144,
            Self::spec_parse(self.spec_ser() + rest) == Some((self, 144int)),
    {
        self.lemma_counts();
        self.lemma_tail();
        let h = self.spec_ser_head();
        let c = self.spec_ser_counts();
        let tl = self.spec_ser_tail();
        let s = self.spec_ser();
        let t = s + rest;
        assert(h.len() == 20);
        assert(t.take(144) =~= s);
        assert(s.take(16) =~= toc_magic());
        lemma_sub_mid(h, c, tl, 0, 4);
        lemma_sub_mid(h, c, tl, 4, 8);
        lemma_sub_mid(h, c, tl, 8, 12);
        lemma_sub_mid(h, c, tl, 12, 16);
        lemma_sub_mid(h, c, tl, 16, 20);
        lemma_sub_mid(h, c, tl, 20, 24);
        lemma_sub_mid(h, c, tl, 24, 28);
        lemma_sub_mid(h, c, tl, 28, 32);
        lemma_sub_mid(h, c, tl, 32, 36);
        lemma_sub_last(h, c, tl, 0, 8);
        lemma_sub_last(h, c, tl, 8, 24);
        lemma_sub_last(h, c, tl, 25, 28);
        lemma_sub_last(h, c, tl, 28, 32);
        lemma_sub_last(h, c, tl, 32, 40);
        lemma_sub_last(h, c, tl, 40, 44);
        lemma_sub_last(h, c, tl, 44, 88);
        assert(s[80] == tl[24]);
        assert(s[17] == h[17] && s[18] == h[18] && s[19] == h[19] && s[16] == h[16]);
        assert(t.subrange(20, 24) =~= s.subrange(20, 24));
        assert(u32_field(t, 20) == u32_field(s, 20));
        assert(t.take(16) =~= toc_magic());
        assert(t[16] == s[16]);
        assert(t[16] == self.version.spec_value());
        self.version.lemma_value_roundtrip();
        self.lemma_decode_fields(s);
        assert(Self::spec_parse(t) == Some((self, 144int))) by {
            reveal(IoStoreTocHeader::spec_parse);
        }
    }

    /// Bytes holding each field of the header decode to the header.
    proof fn lemma_decode_fields(self, s: Seq<u8>)
        requires
            s.len() == 144,
            self.version.spec_value() >= EIoStoreTocVersion::PartitionSize.spec_value(),
            u32_field(s, 20) == self.header_size,
            u32_field(s, 24) == self.entry_count,
            u32_field(s, 28) == self.compressed_block_entry_count,
            u32_field(s, 32) == self.compressed_block_entry_size,
            u32_field(s, 36) == self.compression_method_name_count,
            u32_field(s, 40) == self.compression_method_name_length,
            u32_field(s, 44) == self.compression_block_size,
            u32_field(s, 48) == self.directory_index_size,
            u32_field(s, 52) == self.partition_count,
            u32_field(s, 84) == self.chunk_perfect_hash_seeds_count,
            u32_field(s, 96) == self.chunks_without_perfect_hash_count,
            le_value(s.subrange(56, 64)) == self.container_id.value,
            le_value(s.subrange(88, 96)) == self.partition_size,
            s.subrange(64, 80) == self.encryption_key_guid@,
            s[80] == self.container_flags.bits,
            s.subrange(81, 84) == self.reserved_0@,
            s.subrange(100, 144) == self.reserved_1@,
            s[17] == self.reserved[0], s[18] == self.reserved[1], s[19] == self.reserved[2],
        ensures Self::spec_decode(s, self.version) == self,
    {
        broadcast use vstd::array::group_array_axioms;
        let d = Self::spec_decode(s, self.version);
        assert(d.reserved =~= self.reserved);
        assert forall|i: int| 0 <= i < 16 implies d.encryption_key_guid[i] == self.encryption_key_guid[i] by {
            assert(self.encryption_key_guid@[i] == s.subrange(64, 80)[i]);
        }
        assert(d.encryption_key_guid =~= self.encryption_key_guid);
        assert forall|i: int| 0 <= i < 3 implies d.reserved_0[i] == self.reserved_0[i] by {
            assert(self.reserved_0@[i] == s.subrange(81, 84)[i]);
        }
        assert(d.reserved_0 =~= self.reserved_0);
        assert forall|i: int| 0 <= i < 44 implies d.reserved_1[i] == self.reserved_1[i] by {
            assert(self.reserved_1@[i] == s.subrange(100, 144)[i]);
        }
        assert(d.reserved_1 =~= self.reserved_1);
        assert(d == self);
    }
}

/// A middle part of a three-part concatenation.
pub proof fn lemma_sub_mid(h: Seq<u8>, c: Seq<u8>, t: Seq<u8>, i: int, j: int)
    requires 0 <= i <= j <= c.len(),
    ensures (h + c + t).subrange(h.len() + i, h.len() + j) == c.subrange(i, j),
{
    assert((h + c + t).subrange(h.len() + i, h.len() + j) =~= c.subrange(i, j));
}

/// A part of the last piece of a three-part concatenation.
pub proof fn lemma_sub_last(h: Seq<u8>, c: Seq<u8>, t: Seq<u8>, i: int, j: int)
    requires 0 <= i <= j <= t.len(),
    ensures (h + c + t).subrange(h.len() + c.len() + i, h.len() + c.len() + j) == t.subrange(i, j),
{
    assert((h + c + t).subrange(h.len() + c.len() + i, h.len() + c.len() + j) =~= t.subrange(i, j));
}

/// The magic bytes that open a .utoc file.
pub fn toc_magic_bytes() -> (r: [u8; 16])
    ensures r@ == toc_magic(),
{
    let r = [0x2du8, 0x3du8, 0x3du8, 0x2du8, 0x2du8, 0x3du8, 0x3du8, 0x2du8,
        0x2du8, 0x3du8, 0x3du8, 0x2du8, 0x2du8, 0x3du8, 0x3du8, 0x2du8];
    assert(r@ =~= toc_magic());
    r
}

/// Whether two byte slices are equal.
pub fn bytes_eq(a: &[u8], b: &[u8]) -> (r: bool)
    ensures r == (a@ == b@),
{
    if a.len() != b.len() {
        return false;
    }
    let mut i: usize = 0;
    while i < a.len()
        invariant
            i <= a@.len(),
            a@.len() == b@.len(),
            forall|j: int| 0 <= j < i ==> a@[j] == b@[j],
        decreases a.len() - i,
    {
        if a[i] != b[i] {
            return false;
        }
        i = i + 1;
    }
    assert(a@ =~= b@);
    true
}

} // verus!
