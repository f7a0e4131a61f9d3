//! IoStore exports

use vstd::prelude::*;
use crate::archive::{ByteReader, ByteWriter, stepped, ser_u32, ser_u64, lemma_ser_values};
use crate::bytes::le_value;
use crate::engine_version::EngineVersion;
use crate::error::{Error, IoErrorKind};
use crate::iostore::toc::index::u32_in;
use super::flags::{EExportFilterFlags, EObjectFlags};
use super::name::FMappedName;
use super::{PackageObjectIndex, u64_in};

verus! {

/// IoStore export map entry
#[derive(Debug, Clone, Copy, PartialEq, Eq, Hash)]
pub struct IoStoreExportMapEntry {
    /// Cooked serialized offset
    pub cooked_serial_offset: u64,
    /// Cooked serialized size
    pub cooked_serial_size: u64,
    /// Object name
    pub object_name: FMappedName,
    /// Outer index
    pub outer_index: PackageObjectIndex,
    /// Class index
    pub class_index: PackageObjectIndex,
    /// Super index
    pub super_index: PackageObjectIndex,
    /// Template index
    pub template_index: PackageObjectIndex,
    /// Global import index < 5.0 only
    pub global_import_index: Option<PackageObjectIndex>,
    /// Public export hash >= 5.0 only
    pub public_export_hash: Option<u64>,
    /// Object flags
    pub object_flags: EObjectFlags,
    /// Filter flags
    pub filter_flags: EExportFilterFlags,
    /// Padding
    pub padding: [u8; 3],
}

/// Whether an engine version stores public export hashes in place of global import indices.
pub open spec fn stores_export_hash(engine_version: EngineVersion) -> bool {
    engine_version.ord() >= EngineVersion::VER_UE5_0.ord()
}

impl IoStoreExportMapEntry {
    /// The entry held by 72 bytes; the word at 56 is a public export hash from UE 5.0 on,
    /// a global import index before.
    pub open spec fn spec_decode(b: Seq<u8>, object_name: FMappedName, engine_version: EngineVersion) -> Self {
        let ue5 = stores_export_hash(engine_version);
        IoStoreExportMapEntry {
            cooked_serial_offset: u64_in(b, 0),
            cooked_serial_size: u64_in(b, 8),
            object_name,
            outer_index: PackageObjectIndex::spec_unpack(u64_in(b, 24)),
            class_index: PackageObjectIndex::spec_unpack(u64_in(b, 32)),
            super_index: PackageObjectIndex::spec_unpack(u64_in(b, 40)),
            template_index: PackageObjectIndex::spec_unpack(u64_in(b, 48)),
            global_import_index: if ue5 { None } else { Some(PackageObjectIndex::spec_unpack(u64_in(b, 56))) },
            public_export_hash: if ue5 { Some(u64_in(b, 56)) } else { None },
            object_flags: EObjectFlags { bits: u32_in(b, 64) },
            filter_flags: EExportFilterFlags { bits: b[68] },
            padding: [b[69], b[70], b[71]],
        }
    }

    /// The entry at the start of `s`.
    pub open spec fn spec_parse(s: Seq<u8>, engine_version: EngineVersion) -> Option<(Self, int)> {
        if s.len() >= 72 {
            match FMappedName::spec_decode(s.subrange(16, 24)) {
                Some(n) => Some((Self::spec_decode(s.take(72), n, engine_version), 72)),
                None => None,
            }
        } else {
            None
        }
    }

    /// The first 56 bytes of the encoding, written before the version-dependent word.
    pub open spec fn spec_ser_head(self) -> Seq<u8> {
        ser_u64(self.cooked_serial_offset) + ser_u64(self.cooked_serial_size) + self.object_name.spec_ser()
            + self.outer_index.spec_ser() + self.class_index.spec_ser() + self.super_index.spec_ser()
            + self.template_index.spec_ser()
    }

    /// Whether the entry holds the word that the engine version stores.
    pub open spec fn spec_writable(self, engine_version: EngineVersion) -> bool {
        if stores_export_hash(engine_version) { self.public_export_hash is Some } else { self.global_import_index is Some }
    }

    /// The encoding of the entry.
    pub open spec fn spec_ser(self, engine_version: EngineVersion) -> Seq<u8> {
        self.spec_ser_head()
            + (if stores_export_hash(engine_version) {
                ser_u64(self.public_export_hash->0)
            } else {
                self.global_import_index->0.spec_ser()
            })
            + ser_u32(self.object_flags.bits) + seq![self.filter_flags.bits] + self.padding@
    }

    /// Read `IoStoreExportMapEntry` from a reader
    pub fn read(reader: &mut ByteReader, engine_version: EngineVersion) -> (res: Result<Self, Error>)
        ensures stepped(*old(reader), *final(reader), res, Self::spec_parse(old(reader).remaining(), engine_version)),
    {
        let b = reader.read_record(72)?;
        let s = b.as_slice();
        let ghost rem = old(reader).remaining();
        let name_bytes = sub8(s, 16);
        assert(name_bytes@ =~= rem.subrange(16, 24));
        let object_name = FMappedName::decode(name_bytes.as_slice())?;
        let word = crate::archive::u64_at(s, 56);
        let ue5 = engine_version.to_i32() >= 30;
        let e = IoStoreExportMapEntry {
            cooked_serial_offset: crate::archive::u64_at(s, 0),
            cooked_serial_size: crate::archive::u64_at(s, 8),
            object_name,
            outer_index: PackageObjectIndex::unpack(crate::archive::u64_at(s, 24)),
            class_index: PackageObjectIndex::unpack(crate::archive::u64_at(s, 32)),
            super_index: PackageObjectIndex::unpack(crate::archive::u64_at(s, 40)),
            template_index: PackageObjectIndex::unpack(crate::archive::u64_at(s, 48)),
            global_import_index: if ue5 { None } else { Some(PackageObjectIndex::unpack(word)) },
            public_export_hash: if ue5 { Some(word) } else { None },
            object_flags: EObjectFlags::from_bits_retain(crate::archive::u32_at(s, 64)),
            filter_flags: EExportFilterFlags::from_bits_retain(s[68]),
            padding: [s[69], s[70], s[71]],
        };
        proof {
            assert(name_bytes@ =~= rem.subrange(16, 24));
            let t = rem.take(72);
            assert(b@ =~= t);
            assert(b@.subrange(0, 8) =~= t.subrange(0, 8));
            assert(b@.subrange(8, 16) =~= t.subrange(8, 16));
            assert(b@.subrange(24, 32) =~= t.subrange(24, 32));
            assert(b@.subrange(32, 40) =~= t.subrange(32, 40));
            assert(b@.subrange(40, 48) =~= t.subrange(40, 48));
            assert(b@.subrange(48, 56) =~= t.subrange(48, 56));
            assert(b@.subrange(56, 64) =~= t.subrange(56, 64));
            assert(b@.subrange(64, 68) =~= t.subrange(64, 68));
            assert(e == Self::spec_decode(t, object_name, engine_version));
        }
        Ok(e)
    }

    /// Write `IoStoreExportMapEntry` to a writer
    pub fn write(&self, writer: &mut ByteWriter, engine_version: EngineVersion) -> (res: Result<(), Error>)
        ensures
            res is Ok <==> self.spec_writable(engine_version),
            res is Ok ==> final(writer).data@ == old(writer).data@ + self.spec_ser(engine_version),
            res matches Err(e) ==> e is NoData && final(writer).data@ == old(writer).data@ + self.spec_ser_head(),
    {
        writer.write_u64(self.cooked_serial_offset);
        writer.write_u64(self.cooked_serial_size);
        let _ = self.object_name.write(writer);
        let _ = self.outer_index.write(writer);
        let _ = self.class_index.write(writer);
        let _ = self.super_index.write(writer);
        let _ = self.template_index.write(writer);
        assert(writer.data@ =~= old(writer).data@ + self.spec_ser_head());
        if engine_version.to_i32() >= 30 {
            match self.public_export_hash {
                Some(h) => writer.write_u64(h),
                None => {
                    return Err(Error::no_data(String::from_str("engine_version >= 5.0 but public_export_hash is None")));
                },
            }
        } else {
            match self.global_import_index {
                Some(index) => { let _ = index.write(writer); },
                None => {
                    return Err(Error::no_data(String::from_str("engine_version < 5.0 but global_import_index is None")));
                },
            }
        }
        writer.write_u32(self.object_flags.bits());
        writer.write_u8(self.filter_flags.bits());
        writer.write_bytes(&self.padding);
        assert(final(writer).data@ =~= old(writer).data@ + self.spec_ser(engine_version));
        Ok(())
    }

    /// Get `IoStoreExportMapEntry` serialized size
    pub fn serialized_size() -> (r: u64)
        ensures r == 72,
    {
        72
    }
}

/// The eight bytes of `s` from `off` on.
pub(crate) fn sub8(s: &[u8], off: usize) -> (r: Vec<u8>)
    requires off + 8 <= s@.len(),
    ensures r@ == s@.subrange(off as int, off + 8),
{
    let mut r: Vec<u8> = Vec::new();
    let mut i: usize = 0;
    while i < 8
        invariant i <= 8, off + 8 <= s@.len(), off + 8 <= s.len(), r@ == s@.subrange(off as int, off + i),
        decreases 8 - i,
    {
        r.push(s[off + i]);
        assert(r@ =~= s@.subrange(off as int, off + i + 1));
        i = i + 1;
    }
    r
}

/// IoStore export command type
#[derive(Debug, Clone, Copy, PartialEq, Eq, Hash, Structural)]
pub enum EExportCommandType {
    /// Create
    Create,
    /// Serialize
    Serialize,
    /// Enum variant count
    Count,
}

impl EExportCommandType {
    /// The numeric value of the command.
    pub open spec fn spec_value(self) -> u32 {
        match self {
            EExportCommandType::Create => 0,
            EExportCommandType::Serialize => 1,
            EExportCommandType::Count => 2,
        }
    }

    /// The numeric value of the command.
    pub fn value(self) -> (r: u32)
        ensures r == self.spec_value(),
    {
        match self {
            EExportCommandType::Create => 0,
            EExportCommandType::Serialize => 1,
            EExportCommandType::Count => 2,
        }
    }

    /// The command with a numeric value.
    pub open spec fn spec_from_u32(v: u32) -> Option<Self> {
        if v == 0 {
            Some(EExportCommandType::Create)
        } else if v == 1 {
            Some(EExportCommandType::Serialize)
        } else if v == 2 {
            Some(EExportCommandType::Count)
        } else {
            None
        }
    }

    /// The command with a numeric value.
    pub fn try_from_u32(v: u32) -> (r: Option<Self>)
        ensures r == Self::spec_from_u32(v),
    {
        match v {
            0 => Some(EExportCommandType::Create),
            1 => Some(EExportCommandType::Serialize),
            2 => Some(EExportCommandType::Count),
            _ => None,
        }
    }
}

/// IoStore Export bundle entry
#[derive(Debug, Clone, Copy, PartialEq, Eq, Hash, Structural)]
pub struct ExportBundleEntry {
    /// Local export index
    pub local_export_index: u32,
    /// Command type
    pub command_type: EExportCommandType,
}

impl ExportBundleEntry {
    /// The entry at the start of `s`: the export index and the command, two `u32`s.
    pub open spec fn spec_parse(s: Seq<u8>) -> Option<(Self, int)> {
        if s.len() >= 8 {
            match EExportCommandType::spec_from_u32(u32_in(s, 4)) {
                Some(c) => Some((ExportBundleEntry { local_export_index: u32_in(s, 0), command_type: c }, 8)),
                None => None,
            }
        } else {
            None
        }
    }

    /// The encoding of the entry.
    pub open spec fn spec_ser(self) -> Seq<u8> {
        ser_u32(self.local_export_index) + ser_u32(self.command_type.spec_value())
    }

    /// Read `ExportBundleEntry` from a reader
    pub fn read(reader: &mut ByteReader) -> (res: Result<Self, Error>)
        ensures stepped(*old(reader), *final(reader), res, Self::spec_parse(old(reader).remaining())),
    {
        let b = reader.read_record(8)?;
        let local_export_index = crate::archive::u32_at(b.as_slice(), 0);
        let c = crate::archive::u32_at(b.as_slice(), 4);
        proof {
            let rem = old(reader).remaining();
            assert(b@.subrange(0, 4) =~= rem.subrange(0, 4));
            assert(b@.subrange(4, 8) =~= rem.subrange(4, 8));
        }
        match EExportCommandType::try_from_u32(c) {
            Some(command_type) => Ok(ExportBundleEntry { local_export_index, command_type }),
            None => Err(Error::invalid_enum("EExportCommandType")),
        }
    }

    /// Write `ExportBundleEntry` to a writer
    pub fn write(&self, writer: &mut ByteWriter) -> (res: Result<(), Error>)
        ensures res is Ok, final(writer).data@ == old(writer).data@ + self.spec_ser(),
    {
        writer.write_u32(self.local_export_index);
        writer.write_u32(self.command_type.value());
        Ok(())
    }

    /// Reading back the encoding of an entry gives the entry.
    pub proof fn lemma_roundtrip(self, r: Seq<u8>)
        ensures
            self.spec_ser().len() == 8,
            Self::spec_parse(self.spec_ser() + r) == Some((self, 8int)),
    {
        lemma_ser_values(0, self.local_export_index, 0, 0, 0);
        lemma_ser_values(0, self.command_type.spec_value(), 0, 0, 0);
        let s = self.spec_ser() + r;
        assert(s.subrange(0, 4) =~= ser_u32(self.local_export_index));
        assert(s.subrange(4, 8) =~= ser_u32(self.command_type.spec_value()));
    }
}

/// IoStore export bundle header
#[derive(Debug, Clone, Copy, PartialEq, Eq, Hash, Structural)]
pub struct ExportBundleHeader {
    /// Serialized offset
    pub serial_offset: u64,
    /// First entry index
    pub first_entry_index: u32,
    /// Entry count
    pub entry_count: u32,
}

impl ExportBundleHeader {
    /// The header at the start of `s`: a `u64` offset, then two `u32`s.
    pub open spec fn spec_parse(s: Seq<u8>) -> Option<(Self, int)> {
        if s.len() >= 16 {
            Some((ExportBundleHeader {
                serial_offset: u64_in(s, 0),
                first_entry_index: u32_in(s, 8),
                entry_count: u32_in(s, 12),
            }, 16))
        } else {
            None
        }
    }

    /// The encoding of the header.
    pub open spec fn spec_ser(self) -> Seq<u8> {
        ser_u64(self.serial_offset) + ser_u32(self.first_entry_index) + ser_u32(self.entry_count)
    }

    /// Read `ExportBundleHeader` from a reader
    pub fn read(reader: &mut ByteReader) -> (res: Result<Self, Error>)
        ensures stepped(*old(reader), *final(reader), res, Self::spec_parse(old(reader).remaining())),
    {
        let b = reader.read_record(16)?;
        let h = ExportBundleHeader {
            serial_offset: crate::archive::u64_at(b.as_slice(), 0),
            first_entry_index: crate::archive::u32_at(b.as_slice(), 8),
            entry_count: crate::archive::u32_at(b.as_slice(), 12),
        };
        proof {
            let rem = old(reader).remaining();
            assert(b@.subrange(0, 8) =~= rem.subrange(0, 8));
            assert(b@.subrange(8, 12) =~= rem.subrange(8, 12));
            assert(b@.subrange(12, 16) =~= rem.subrange(12, 16));
        }
        Ok(h)
    }

    /// Write `ExportBundleHeader` to a writer
    pub fn write(&self, writer: &mut ByteWriter) -> (res: Result<(), Error>)
        ensures res is Ok, final(writer).data@ == old(writer).data@ + self.spec_ser(),
    {
        writer.write_u64(self.serial_offset);
        writer.write_u32(self.first_entry_index);
        writer.write_u32(self.entry_count);
        assert(final(writer).data@ =~= old(writer).data@ + self.spec_ser());
        Ok(())
    }

    /// Reading back the encoding of a header gives the header.
    pub proof fn lemma_roundtrip(self, r: Seq<u8>)
        ensures
            self.spec_ser().len() == 16,
            Self::spec_parse(self.spec_ser() + r) == Some((self, 16int)),
    {
        lemma_ser_values(0, self.first_entry_index, self.serial_offset, 0, 0);
        lemma_ser_values(0, self.entry_count, 0, 0, 0);
        let s = self.spec_ser() + r;
        assert(s.subrange(0, 8) =~= ser_u64(self.serial_offset));
        assert(s.subrange(8, 12) =~= ser_u32(self.first_entry_index));
        assert(s.subrange(12, 16) =~= ser_u32(self.entry_count));
    }
}

} // verus!
