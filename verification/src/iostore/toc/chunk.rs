//! .utoc chunks

use vstd::prelude::*;
use crate::archive::{ByteReader, ByteWriter, u64_at, u16_be_at, ser_u64, ser_u16_be, lemma_ser_values};
use crate::bytes::{le_value, be_value};
use crate::error::Error;

verus! {

/// IoStore chunk type < UE5
#[derive(Debug, Clone, Copy, PartialEq, Eq, Hash, Structural)]
pub enum EIoChunkType {
    /// Invalid
    Invalid,
    /// Install manifest
    InstallManifest,
    /// Export bundle data
    ExportBundleData,
    /// Bulk data
    BulkData,
    /// Optional bulk data
    OptionalBulkData,
    /// Memory mapped bulk data
    MemoryMappedBulkData,
    /// Loader global meta
    LoaderGlobalMeta,
    /// Loader initial load meta
    LoaderInitialLoadMeta,
    /// Loader global names
    LoaderGlobalNames,
    /// Loader global name hashes
    LoaderGlobalNameHashes,
    /// Container header
    ContainerHeader,
}

impl EIoChunkType {
    /// The name of the chunk type.
    pub open spec fn spec_name(self) -> Seq<char> {
        match self {
            EIoChunkType::Invalid => "Invalid"@,
            EIoChunkType::InstallManifest => "InstallManifest"@,
            EIoChunkType::ExportBundleData => "ExportBundleData"@,
            EIoChunkType::BulkData => "BulkData"@,
            EIoChunkType::OptionalBulkData => "OptionalBulkData"@,
            EIoChunkType::MemoryMappedBulkData => "MemoryMappedBulkData"@,
            EIoChunkType::LoaderGlobalMeta => "LoaderGlobalMeta"@,
            EIoChunkType::LoaderInitialLoadMeta => "LoaderInitialLoadMeta"@,
            EIoChunkType::LoaderGlobalNames => "LoaderGlobalNames"@,
            EIoChunkType::LoaderGlobalNameHashes => "LoaderGlobalNameHashes"@,
            EIoChunkType::ContainerHeader => "ContainerHeader"@,
        }
    }

    /// The name of the chunk type.
    pub fn to_string(&self) -> (r: String)
        ensures r@ == self.spec_name(),
    {
        match self {
            EIoChunkType::Invalid => String::from_str("Invalid"),
            EIoChunkType::InstallManifest => String::from_str("InstallManifest"),
            EIoChunkType::ExportBundleData => String::from_str("ExportBundleData"),
            EIoChunkType::BulkData => String::from_str("BulkData"),
            EIoChunkType::OptionalBulkData => String::from_str("OptionalBulkData"),
            EIoChunkType::MemoryMappedBulkData => String::from_str("MemoryMappedBulkData"),
            EIoChunkType::LoaderGlobalMeta => String::from_str("LoaderGlobalMeta"),
            EIoChunkType::LoaderInitialLoadMeta => String::from_str("LoaderInitialLoadMeta"),
            EIoChunkType::LoaderGlobalNames => String::from_str("LoaderGlobalNames"),
            EIoChunkType::LoaderGlobalNameHashes => String::from_str("LoaderGlobalNameHashes"),
            EIoChunkType::ContainerHeader => String::from_str("ContainerHeader"),
        }
    }
}

/// IoStore chunk type >= UE5
#[derive(Debug, Clone, Copy, PartialEq, Eq, Hash, Structural)]
pub enum EIoChunkType5 {
    /// Invalid
    Invalid,
    /// Export bundle data
    ExportBundleData,
    /// Bulk data
    BulkData,
    /// Optional bulk data
    OptionalBulkData,
    /// Memory mapped bulk data
    MemoryMappedBulkData,
    /// Script objects
    ScriptObjects,
    /// Container header
    ContainerHeader,
    /// External file
    ExternalFile,
    /// Shader code library
    ShaderCodeLibrary,
    /// Shader code
    ShaderCode,
    /// Package store entry
    PackageStoreEntry,
    /// Derived data
    DerivedData,
    /// Editor derived data
    EditorDerivedData,
}

impl EIoChunkType5 {
    /// The numeric value of the chunk type.
    pub open spec fn spec_value(self) -> u8 {
        match self {
            EIoChunkType5::Invalid => 0,
            EIoChunkType5::ExportBundleData => 1,
            EIoChunkType5::BulkData => 2,
            EIoChunkType5::OptionalBulkData => 3,
            EIoChunkType5::MemoryMappedBulkData => 4,
            EIoChunkType5::ScriptObjects => 5,
            EIoChunkType5::ContainerHeader => 6,
            EIoChunkType5::ExternalFile => 7,
            EIoChunkType5::ShaderCodeLibrary => 8,
            EIoChunkType5::ShaderCode => 9,
            EIoChunkType5::PackageStoreEntry => 10,
            EIoChunkType5::DerivedData => 11,
            EIoChunkType5::EditorDerivedData => 12,
        }
    }

    /// The numeric value of the chunk type.
    pub fn value(self) -> (r: u8)
        ensures r == self.spec_value(),
    {
        match self {
            EIoChunkType5::Invalid => 0,
            EIoChunkType5::ExportBundleData => 1,
            EIoChunkType5::BulkData => 2,
            EIoChunkType5::OptionalBulkData => 3,
            EIoChunkType5::MemoryMappedBulkData => 4,
            EIoChunkType5::ScriptObjects => 5,
            EIoChunkType5::ContainerHeader => 6,
            EIoChunkType5::ExternalFile => 7,
            EIoChunkType5::ShaderCodeLibrary => 8,
            EIoChunkType5::ShaderCode => 9,
            EIoChunkType5::PackageStoreEntry => 10,
            EIoChunkType5::DerivedData => 11,
            EIoChunkType5::EditorDerivedData => 12,
        }
    }

    /// The name of the chunk type.
    pub open spec fn spec_name(self) -> Seq<char> {
        match self {
            EIoChunkType5::Invalid => "Invalid"@,
            EIoChunkType5::ExportBundleData => "ExportBundleData"@,
            EIoChunkType5::BulkData => "BulkData"@,
            EIoChunkType5::OptionalBulkData => "OptionalBulkData"@,
            EIoChunkType5::MemoryMappedBulkData => "MemoryMappedBulkData"@,
            EIoChunkType5::ScriptObjects => "ScriptObjects"@,
            EIoChunkType5::ContainerHeader => "ContainerHeader"@,
            EIoChunkType5::ExternalFile => "ExternalFile"@,
            EIoChunkType5::ShaderCodeLibrary => "ShaderCodeLibrary"@,
            EIoChunkType5::ShaderCode => "ShaderCode"@,
            EIoChunkType5::PackageStoreEntry => "PackageStoreEntry"@,
            EIoChunkType5::DerivedData => "DerivedData"@,
            EIoChunkType5::EditorDerivedData => "EditorDerivedData"@,
        }
    }

    /// The name of the chunk type.
    pub fn to_string(&self) -> (r: String)
        ensures r@ == self.spec_name(),
    {
        match self {
            EIoChunkType5::Invalid => String::from_str("Invalid"),
            EIoChunkType5::ExportBundleData => String::from_str("ExportBundleData"),
            EIoChunkType5::BulkData => String::from_str("BulkData"),
            EIoChunkType5::OptionalBulkData => String::from_str("OptionalBulkData"),
            EIoChunkType5::MemoryMappedBulkData => String::from_str("MemoryMappedBulkData"),
            EIoChunkType5::ScriptObjects => String::from_str("ScriptObjects"),
            EIoChunkType5::ContainerHeader => String::from_str("ContainerHeader"),
            EIoChunkType5::ExternalFile => String::from_str("ExternalFile"),
            EIoChunkType5::ShaderCodeLibrary => String::from_str("ShaderCodeLibrary"),
            EIoChunkType5::ShaderCode => String::from_str("ShaderCode"),
            EIoChunkType5::PackageStoreEntry => String::from_str("PackageStoreEntry"),
            EIoChunkType5::DerivedData => String::from_str("DerivedData"),
            EIoChunkType5::EditorDerivedData => String::from_str("EditorDerivedData"),
        }
    }
}

/// The FNV-1 style fold of `bytes` into the hash `h`.
pub open spec fn fnv_fold(h: u64, bytes: Seq<u8>) -> u64
    decreases bytes.len(),
{
    if bytes.len() == 0 {
        h
    } else {
        fnv_fold(vstd::wrapping::u64_specs::wrapping_mul(h, 0x00000100000001B3) ^ (bytes[0] as u64), bytes.drop_first())
    }
}

/// IoStore chunk id
#[derive(Debug, Clone, Copy, PartialEq, Eq, Hash, Structural)]
pub struct IoChunkId {
    /// Chunk id
    pub chunk_id: u64,
    /// Chunk index
    pub chunk_index: u16,
    /// Chunk type
    pub chunk_type: u8,
}

impl IoChunkId {
    /// Serialized size
    pub open spec fn spec_size() -> int { 12 }

    /// The chunk id held by 12 bytes: a little-endian id, a big-endian index, a padding byte and the type.
    pub open spec fn spec_decode(b: Seq<u8>) -> Self {
        IoChunkId {
            chunk_id: le_value(b.subrange(0, 8)) as u64,
            chunk_index: be_value(b.subrange(8, 10)) as u16,
            chunk_type: b[11],
        }
    }

    /// The chunk id at the start of `s`.
    pub open spec fn spec_parse(s: Seq<u8>) -> Option<(Self, int)> {
        if s.len() >= 12 { Some((Self::spec_decode(s.take(12)), 12)) } else { None }
    }

    /// The 12 bytes of the chunk id.
    pub open spec fn spec_ser(self) -> Seq<u8> {
        ser_u64(self.chunk_id) + ser_u16_be(self.chunk_index) + seq![0u8, self.chunk_type]
    }

    /// Create a new chunk id
    pub fn new(chunk_id: u64, chunk_index: u16, chunk_type: u8) -> (r: IoChunkId)
        ensures r == (IoChunkId { chunk_id, chunk_index, chunk_type }),
    {
        IoChunkId { chunk_id, chunk_index, chunk_type }
    }

    /// Decode 12 bytes.
    pub fn decode(b: &[u8]) -> (r: Self)
        requires b@.len() == 12,
        ensures r == Self::spec_decode(b@),
    {
        IoChunkId { chunk_id: u64_at(b, 0), chunk_index: u16_be_at(b, 8), chunk_type: b[11] }
    }

    /// Read `IoChunkId` from a reader
    pub fn read(reader: &mut ByteReader) -> (res: Result<Self, Error>)
        ensures crate::archive::stepped(*old(reader), *final(reader), res, Self::spec_parse(old(reader).remaining())),
    {
        let b = reader.read_record(12)?;
        Ok(Self::decode(b.as_slice()))
    }

    /// Write `IoChunkId` to a writer
    pub fn write(&self, writer: &mut ByteWriter) -> (res: Result<(), Error>)
        ensures
            res is Ok,
            final(writer).data@ == old(writer).data@ + self.spec_ser(),
    {
        writer.write_u64(self.chunk_id);
        writer.write_u16_be(self.chunk_index);
        writer.write_u8(0);
        writer.write_u8(self.chunk_type);
        assert(final(writer).data@ =~= old(writer).data@ + self.spec_ser());
        Ok(())
    }

    /// Reading back the encoding of a chunk id gives the chunk id.
    pub proof fn lemma_roundtrip(self, rest: Seq<u8>)
        ensures
            self.spec_ser().len() == 12,
            Self::spec_parse(self.spec_ser() + rest) == Some((self, 12int)),
    {
        lemma_ser_values(self.chunk_index, 0, self.chunk_id, 0, 0);
        let s = self.spec_ser();
        assert((s + rest).take(12) =~= s);
        assert(s.subrange(0, 8) =~= ser_u64(self.chunk_id));
        assert(s.subrange(8, 10) =~= ser_u16_be(self.chunk_index));
    }

    /// The hash used to find the chunk in the .utoc perfect hash table.
    pub open spec fn spec_hash(self, seed: i32) -> u64 {
        fnv_fold(if seed == 0 { 0xcbf29ce484222325u64 } else { seed as u64 }, self.spec_ser())
    }

    /// Hash `IoChunkId` for searching in the .utoc file
    pub fn hash(&self, seed: i32) -> (res: Result<u64, Error>)
        ensures res == Ok::<u64, Error>(self.spec_hash(seed)),
    {
        let mut writer = ByteWriter::new();
        self.write(&mut writer)?;
        let data = writer.data;
        let mut hash: u64 = if seed == 0 { 0xcbf29ce484222325 } else { seed as u64 };
        let mut i: usize = 0;
        assert(data@.skip(0) =~= data@);
        while i < data.len()
            invariant
                i <= data@.len(),
                data@ == self.spec_ser(),
                fnv_fold(hash, data@.skip(i as int)) == self.spec_hash(seed),
            decreases data.len() - i,
        {
            assert(data@.skip(i as int).drop_first() =~= data@.skip(i + 1));
            hash = hash.wrapping_mul(0x00000100000001B3) ^ data[i] as u64;
            i = i + 1;
        }
        assert(data@.skip(i as int) =~= Seq::<u8>::empty());
        Ok(hash)
    }
}

/// IoStore chunk hash
#[derive(Debug, Clone, Copy, PartialEq, Eq, Hash)]
pub struct IoChunkHash {
    /// Value
    pub value: [u8; 32],
}

impl IoChunkHash {
    /// The hash at the start of `s`.
    pub open spec fn spec_parse(s: Seq<u8>) -> Option<(Seq<u8>, int)> {
        if s.len() >= 32 { Some((s.take(32), 32)) } else { None }
    }

    /// Read `IoChunkHash` from a reader
    pub fn read(reader: &mut ByteReader) -> (res: Result<Self, Error>)
        ensures
            final(reader).data@ == old(reader).data@,
            match res {
                Ok(h) => Self::spec_parse(old(reader).remaining()) == Some((h.value@, final(reader).pos - old(reader).pos)),
                Err(_) => Self::spec_parse(old(reader).remaining()) is None,
            },
    {
        let b = reader.read_record(32)?;
        let value: [u8; 32] = [
            b[0], b[1], b[2], b[3], b[4], b[5], b[6], b[7], b[8], b[9], b[10], b[11], b[12], b[13], b[14], b[15],
            b[16], b[17], b[18], b[19], b[20], b[21], b[22], b[23], b[24], b[25], b[26], b[27], b[28], b[29], b[30], b[31],
        ];
        assert(value@ =~= b@);
        Ok(IoChunkHash { value })
    }

    /// Write `IoChunkHash` to a writer
    pub fn write(&self, writer: &mut ByteWriter) -> (res: Result<(), Error>)
        ensures
            res is Ok,
            final(writer).data@ == old(writer).data@ + self.value@,
    {
        writer.write_bytes(&self.value);
        Ok(())
    }
}

} // verus!

verus! {

impl crate::archive::Record for IoChunkId {
    type Model = IoChunkId;

    open spec fn model(v: IoChunkId) -> IoChunkId { v }

    open spec fn parse_model(s: Seq<u8>) -> Option<(IoChunkId, int)> { IoChunkId::spec_parse(s) }

    open spec fn ser_model(m: IoChunkId) -> Seq<u8> { m.spec_ser() }

    fn read_from(reader: &mut ByteReader) -> (res: Result<IoChunkId, Error>) {
        IoChunkId::read(reader)
    }

    fn write_to(&self, writer: &mut ByteWriter) {
        let _ = self.write(writer);
    }
}

} // verus!
