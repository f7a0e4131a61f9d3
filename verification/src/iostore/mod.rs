//! .utoc/.ucas files support
//! Supports reading and writing.

pub mod align;
pub mod container_header;
pub mod encryption;
pub mod exports;
pub mod flags;
pub mod graph_data;
pub mod name;
pub mod name_batch;
pub mod package_id;
pub mod providers;
pub mod toc;
pub mod zen;

use vstd::prelude::*;
use crate::archive::{ByteReader, ByteWriter, stepped, ser_u32, ser_u64, lemma_ser_values};
use crate::bytes::le_value;
use crate::error::{Error, IoErrorKind};
use self::name::FMappedName;

verus! {

/// IoStore packge object index type
#[derive(Debug, Clone, Copy, PartialEq, Eq, Hash, Structural)]
pub enum EPackageObjectIndexType {
    /// Export
    Export,
    /// Script import
    ScriptImport,
    /// Package import
    PackageImport,
    /// Null
    Null,
}

impl Default for EPackageObjectIndexType {
    fn default() -> (r: Self)
        ensures r == EPackageObjectIndexType::Null,
    {
        EPackageObjectIndexType::Null
    }
}

impl EPackageObjectIndexType {
    /// The numeric value of the type.
    pub open spec fn spec_value(self) -> u16 {
        match self {
            EPackageObjectIndexType::Export => 0,
            EPackageObjectIndexType::ScriptImport => 1,
            EPackageObjectIndexType::PackageImport => 2,
            EPackageObjectIndexType::Null => 3,
        }
    }

    /// The numeric value of the type.
    pub fn value(self) -> (r: u16)
        ensures r == self.spec_value(),
    {
        match self {
            EPackageObjectIndexType::Export => 0,
            EPackageObjectIndexType::ScriptImport => 1,
            EPackageObjectIndexType::PackageImport => 2,
            EPackageObjectIndexType::Null => 3,
        }
    }

    /// The type with a numeric value.
    pub open spec fn spec_from_u16(v: u16) -> Option<Self> {
        if v == 0 {
            Some(EPackageObjectIndexType::Export)
        } else if v == 1 {
            Some(EPackageObjectIndexType::ScriptImport)
        } else if v == 2 {
            Some(EPackageObjectIndexType::PackageImport)
        } else if v == 3 {
            Some(EPackageObjectIndexType::Null)
        } else {
            None
        }
    }

    /// The type with a numeric value.
    pub fn try_from_u16(v: u16) -> (r: Option<Self>)
        ensures r == Self::spec_from_u16(v),
    {
        match v {
            0 => Some(EPackageObjectIndexType::Export),
            1 => Some(EPackageObjectIndexType::ScriptImport),
            2 => Some(EPackageObjectIndexType::PackageImport),
            3 => Some(EPackageObjectIndexType::Null),
            _ => None,
        }
    }
}

/// IoStore package index
#[derive(Debug, Clone, Copy, PartialEq, Eq, Hash, Structural)]
pub struct PackageObjectIndex {
    /// Id
    pub id: u64,
    /// Type
    pub ty: EPackageObjectIndexType,
}

impl Default for PackageObjectIndex {
    fn default() -> (r: Self)
        ensures r == (PackageObjectIndex { id: 0, ty: EPackageObjectIndexType::Null }),
    {
        PackageObjectIndex { id: 0, ty: EPackageObjectIndexType::Null }
    }
}

/// The type named by the top two bits of a packed index.
pub open spec fn type_of_bits(v: u64) -> EPackageObjectIndexType {
    match EPackageObjectIndexType::spec_from_u16((v >> 62u64) as u16) {
        Some(t) => t,
        None => EPackageObjectIndexType::Null,
    }
}

impl PackageObjectIndex {
    /// Index bits
    pub const INDEX_BITS: u64 = 62;
    /// Index mask
    pub const INDEX_MASK: u64 = 0x3fff_ffff_ffff_ffff;
    /// Type bit shift
    pub const TYPE_SHIFT: u64 = 62;

    /// Create a new `PackageObjectIndex` instance
    pub fn new(id: u64, ty: EPackageObjectIndexType) -> (r: Self)
        ensures r == (PackageObjectIndex { id, ty }),
    {
        PackageObjectIndex { id, ty }
    }

    /// The index packed in 64 bits: the id in the low 62 bits, the type in the top two.
    pub open spec fn spec_unpack(v: u64) -> Self {
        PackageObjectIndex { id: v & 0x3fff_ffff_ffff_ffffu64, ty: type_of_bits(v) }
    }

    /// The low 62 bits of the id with the type in the top two bits.
    pub open spec fn spec_pack(self) -> u64 {
        (self.id & 0x3fff_ffff_ffff_ffffu64) | ((self.ty.spec_value() as u64) << 62u64)
    }

    /// The index at the start of `s`.
    pub open spec fn spec_parse(s: Seq<u8>) -> Option<(Self, int)> {
        if s.len() >= 8 { Some((Self::spec_unpack(le_value(s.take(8)) as u64), 8)) } else { None }
    }

    /// The encoding of the index.
    pub open spec fn spec_ser(self) -> Seq<u8> {
        ser_u64(self.spec_pack())
    }

    /// Unpacks 64 bits.
    pub fn unpack(type_and_id: u64) -> (r: Self)
        ensures r == Self::spec_unpack(type_and_id),
    {
        let id = type_and_id & Self::INDEX_MASK;
        let t = type_and_id >> Self::TYPE_SHIFT;
        assert(t < 4) by (bit_vector)
            requires t == type_and_id >> 62u64;
        let ty = match EPackageObjectIndexType::try_from_u16(t as u16) {
            Some(ty) => ty,
            None => EPackageObjectIndexType::Null,
        };
        PackageObjectIndex { id, ty }
    }

    /// Packs into 64 bits.
    pub fn pack(&self) -> (r: u64)
        ensures r == self.spec_pack(),
    {
        self.id & Self::INDEX_MASK | ((self.ty.value() as u64) << Self::TYPE_SHIFT)
    }

    /// Read `PackageObjectIndex` from a reader
    pub fn read(reader: &mut ByteReader) -> (res: Result<Self, Error>)
        ensures
            stepped(*old(reader), *final(reader), res, Self::spec_parse(old(reader).remaining())),
            res matches Err(e) ==> e == Error::Io(IoErrorKind::UnexpectedEof),
    {
        let type_and_id = reader.read_u64()?;
        Ok(Self::unpack(type_and_id))
    }

    /// Write `PackageObjectIndex` to a writer
    pub fn write(&self, writer: &mut ByteWriter) -> (res: Result<(), Error>)
        ensures res is Ok, final(writer).data@ == old(writer).data@ + self.spec_ser(),
    {
        writer.write_u64(self.pack());
        Ok(())
    }

    /// Every 64-bit value unpacks to an index that packs back to it.
    pub proof fn lemma_unpack_pack(v: u64)
        ensures Self::spec_unpack(v).spec_pack() == v,
    {
        let t = v >> 62u64;
        assert(t < 4) by (bit_vector) requires t == v >> 62u64;
        assert(type_of_bits(v).spec_value() as u64 == t);
        let p = Self::spec_unpack(v).spec_pack();
        assert(((v & 0x3fff_ffff_ffff_ffffu64) & 0x3fff_ffff_ffff_ffffu64) | (t << 62u64) == v) by (bit_vector)
            requires t == v >> 62u64;
    }

    /// An index whose id fits 62 bits packs to a value that unpacks to it.
    pub proof fn lemma_pack_unpack(self)
        requires self.id <= Self::INDEX_MASK,
        ensures Self::spec_unpack(self.spec_pack()) == self,
    {
        let i = self.id;
        let t = self.ty.spec_value() as u64;
        assert(t < 4);
        let p = self.spec_pack();
        assert((p >> 62u64) == t && (p & 0x3fff_ffff_ffff_ffffu64) == i) by (bit_vector)
            requires p == (i & 0x3fff_ffff_ffff_ffffu64) | (t << 62u64), t < 4, i <= 0x3fff_ffff_ffff_ffffu64;
        assert((t as u16) as u64 == t);
    }

    /// Reading back the encoding of an index whose id fits 62 bits gives the index.
    pub proof fn lemma_roundtrip(self, r: Seq<u8>)
        requires self.id <= Self::INDEX_MASK,
        ensures
            self.spec_ser().len() == 8,
            Self::spec_parse(self.spec_ser() + r) == Some((self, 8int)),
    {
        crate::archive::lemma_parse_ints(0, 0, self.spec_pack(), 0, 0, r);
        lemma_ser_values(0, 0, self.spec_pack(), 0, 0);
        self.lemma_pack_unpack();
    }

    /// Check if this `PackageObjectIndex` is null
    pub fn is_null(&self) -> (r: bool)
        ensures r == (self.ty == EPackageObjectIndexType::Null),
    {
        self.ty == EPackageObjectIndexType::Null
    }

    /// Check if this `PackageObjectIndex` is a package import
    pub fn is_package_import(&self) -> (r: bool)
        ensures r == (self.ty == EPackageObjectIndexType::PackageImport),
    {
        self.ty == EPackageObjectIndexType::PackageImport
    }

    /// Check if this `PackageObjectIndex` is a script import
    pub fn is_script_import(&self) -> (r: bool)
        ensures r == (self.ty == EPackageObjectIndexType::ScriptImport),
    {
        self.ty == EPackageObjectIndexType::ScriptImport
    }

    /// Check if this `PackageObjectIndex` is an import of either kind
    pub fn is_import(&self) -> (r: bool)
        ensures r == (self.ty == EPackageObjectIndexType::PackageImport || self.ty == EPackageObjectIndexType::ScriptImport),
    {
        self.is_package_import() || self.is_script_import()
    }

    /// Check if this `PackageObjectIndex` is an export
    pub fn is_export(&self) -> (r: bool)
        ensures r == (self.ty == EPackageObjectIndexType::Export),
    {
        self.ty == EPackageObjectIndexType::Export
    }

    /// Get this `PackageObjectIndex` as an export
    pub fn as_export(&self) -> (r: u32)
        ensures r == self.id as u32,
    {
        self.id as u32
    }

    /// Get `PackageObjectIndex` serialized size
    pub fn serialized_size() -> (r: u64)
        ensures r == 8,
    {
        8
    }
}

/// IoStore script object entry
#[derive(Debug, Clone, Copy, PartialEq, Eq, Hash, Structural)]
pub struct ScriptObjectEntry {
    /// Object name
    pub object_name: FMappedName,
    /// Global index
    pub global_index: PackageObjectIndex,
    /// Outer index
    pub outer_index: PackageObjectIndex,
    /// Class default object index
    pub cdo_index: PackageObjectIndex,
}

/// The little-endian `u64` at `off` in `b`.
pub open spec fn u64_in(b: Seq<u8>, off: int) -> u64 {
    le_value(b.subrange(off, off + 8)) as u64
}

impl ScriptObjectEntry {
    /// Create a new `ScriptObjectEntry` instance
    pub fn new(
        object_name: FMappedName,
        global_index: PackageObjectIndex,
        outer_index: PackageObjectIndex,
        cdo_index: PackageObjectIndex,
    ) -> (r: Self)
        ensures r == (ScriptObjectEntry { object_name, global_index, outer_index, cdo_index }),
    {
        ScriptObjectEntry { object_name, global_index, outer_index, cdo_index }
    }

    /// The entry at the start of `s`: a mapped name and three packed indices.
    pub open spec fn spec_parse(s: Seq<u8>) -> Option<(Self, int)> {
        if s.len() >= 32 {
            match FMappedName::spec_decode(s.take(8)) {
                Some(object_name) => Some((ScriptObjectEntry {
                    object_name,
                    global_index: PackageObjectIndex::spec_unpack(u64_in(s, 8)),
                    outer_index: PackageObjectIndex::spec_unpack(u64_in(s, 16)),
                    cdo_index: PackageObjectIndex::spec_unpack(u64_in(s, 24)),
                }, 32)),
                None => None,
            }
        } else {
            None
        }
    }

    /// The encoding of the entry.
    pub open spec fn spec_ser(self) -> Seq<u8> {
        self.object_name.spec_ser() + self.global_index.spec_ser() + self.outer_index.spec_ser()
            + self.cdo_index.spec_ser()
    }

    /// Read `ScriptObjectEntry` from a reader
    pub fn read(reader: &mut ByteReader) -> (res: Result<Self, Error>)
        ensures stepped(*old(reader), *final(reader), res, Self::spec_parse(old(reader).remaining())),
    {
        let b = reader.read_record(32)?;
        let s = b.as_slice();
        let ghost rem = old(reader).remaining();
        let head = slice_take8(s);
        assert(head@ =~= rem.take(8));
        let object_name = FMappedName::decode(head.as_slice())?;
        let global_index = PackageObjectIndex::unpack(crate::archive::u64_at(s, 8));
        let outer_index = PackageObjectIndex::unpack(crate::archive::u64_at(s, 16));
        let cdo_index = PackageObjectIndex::unpack(crate::archive::u64_at(s, 24));
        proof {
            assert(b@.subrange(8, 16) =~= rem.subrange(8, 16));
            assert(b@.subrange(16, 24) =~= rem.subrange(16, 24));
            assert(b@.subrange(24, 32) =~= rem.subrange(24, 32));
        }
        Ok(ScriptObjectEntry { object_name, global_index, outer_index, cdo_index })
    }

    /// Write `ScriptObjectEntry` to a writer
    pub fn write(&self, writer: &mut ByteWriter) -> (res: Result<(), Error>)
        ensures res is Ok, final(writer).data@ == old(writer).data@ + self.spec_ser(),
    {
        let _ = self.object_name.write(writer);
        let _ = self.global_index.write(writer);
        let _ = self.outer_index.write(writer);
        let _ = self.cdo_index.write(writer);
        assert(final(writer).data@ =~= old(writer).data@ + self.spec_ser());
        Ok(())
    }
}

/// The first eight bytes of `s`.
fn slice_take8(s: &[u8]) -> (r: Vec<u8>)
    requires s@.len() >= 8,
    ensures r@ == s@.take(8),
{
    let mut r: Vec<u8> = Vec::new();
    let mut i: usize = 0;
    while i < 8
        invariant i <= 8, s@.len() >= 8, r@ == s@.take(i as int),
        decreases 8 - i,
    {
        r.push(s[i]);
        assert(r@ =~= s@.take(i + 1));
        i = i + 1;
    }
    r
}

/// IoStore bulk data map entry
#[derive(Debug, Clone, Copy, PartialEq, Eq, Hash, Structural)]
pub struct BulkDataMapEntry {
    /// Serialized offset
    pub serial_offset: u64,
    /// Duplicate serialized offset
    pub dup_serial_offset: u64,
    /// Serialized size
    pub serial_size: u64,
    /// Flags
    pub flags: u32,
    /// Padding
    pub padding: u32,
}

impl BulkDataMapEntry {
    /// The entry at the start of `s`: three `u64`s and two `u32`s.
    pub open spec fn spec_parse(s: Seq<u8>) -> Option<(Self, int)> {
        if s.len() >= 32 {
            Some((BulkDataMapEntry {
                serial_offset: u64_in(s, 0),
                dup_serial_offset: u64_in(s, 8),
                serial_size: u64_in(s, 16),
                flags: crate::iostore::toc::index::u32_in(s, 24),
                padding: crate::iostore::toc::index::u32_in(s, 28),
            }, 32))
        } else {
            None
        }
    }

    /// The encoding of the entry.
    pub open spec fn spec_ser(self) -> Seq<u8> {
        ser_u64(self.serial_offset) + ser_u64(self.dup_serial_offset) + ser_u64(self.serial_size)
            + ser_u32(self.flags) + ser_u32(self.padding)
    }

    /// Read `BulkDataMapEntry` from a reader
    pub fn read(reader: &mut ByteReader) -> (res: Result<Self, Error>)
        ensures stepped(*old(reader), *final(reader), res, Self::spec_parse(old(reader).remaining())),
    {
        let b = reader.read_record(32)?;
        let s = b.as_slice();
        let e = BulkDataMapEntry {
            serial_offset: crate::archive::u64_at(s, 0),
            dup_serial_offset: crate::archive::u64_at(s, 8),
            serial_size: crate::archive::u64_at(s, 16),
            flags: crate::archive::u32_at(s, 24),
            padding: crate::archive::u32_at(s, 28),
        };
        proof {
            let rem = old(reader).remaining();
            assert(b@.subrange(0, 8) =~= rem.subrange(0, 8));
            assert(b@.subrange(8, 16) =~= rem.subrange(8, 16));
            assert(b@.subrange(16, 24) =~= rem.subrange(16, 24));
            assert(b@.subrange(24, 28) =~= rem.subrange(24, 28));
            assert(b@.subrange(28, 32) =~= rem.subrange(28, 32));
        }
        Ok(e)
    }

    /// Write `BulkDataMapEntry` to a writer
    pub fn write(&self, writer: &mut ByteWriter) -> (res: Result<(), Error>)
        ensures res is Ok, final(writer).data@ == old(writer).data@ + self.spec_ser(),
    {
        writer.write_u64(self.serial_offset);
        writer.write_u64(self.dup_serial_offset);
        writer.write_u64(self.serial_size);
        writer.write_u32(self.flags);
        writer.write_u32(self.padding);
        assert(final(writer).data@ =~= old(writer).data@ + self.spec_ser());
        Ok(())
    }

    /// Reading back the encoding of an entry gives the entry.
    pub proof fn lemma_roundtrip(self, r: Seq<u8>)
        ensures
            self.spec_ser().len() == 32,
            Self::spec_parse(self.spec_ser() + r) == Some((self, 32int)),
    {
        lemma_ser_values(0, self.flags, self.serial_offset, 0, 0);
        lemma_ser_values(0, self.padding, self.dup_serial_offset, 0, 0);
        lemma_ser_values(0, 0, self.serial_size, 0, 0);
        let s = self.spec_ser() + r;
        assert(s.subrange(0, 8) =~= ser_u64(self.serial_offset));
        assert(s.subrange(8, 16) =~= ser_u64(self.dup_serial_offset));
        assert(s.subrange(16, 24) =~= ser_u64(self.serial_size));
        assert(s.subrange(24, 28) =~= ser_u32(self.flags));
        assert(s.subrange(28, 32) =~= ser_u32(self.padding));
    }
}

} // verus!
