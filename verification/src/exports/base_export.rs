//! Base uasset export

use vstd::prelude::*;
use crate::archive::{ArchiveType, ByteReader, ByteWriter, ser_i32, ser_i64, ser_u32, u32_at, u64_at};
use crate::bytes::le_value;
use crate::engine_version::{
    VER_UE4_TEMPLATE_INDEX_IN_COOKED_EXPORTS, VER_UE4_64BIT_EXPORTMAP_SERIALSIZES, VER_UE4_LOAD_FOR_EDITOR_GAME,
    VER_UE4_COOKED_ASSETS_IN_EDITOR_SUPPORT, VER_UE4_PRELOAD_DEPENDENCIES_IN_COOKED_EXPORTS, OPTIONAL_RESOURCES,
    TRACK_OBJECT_EXPORT_IS_INHERITED,
};
use crate::error::{Error, IoErrorKind};
use crate::iostore::flags::EObjectFlags;
use crate::types::{Guid, NameIndex, PackageIndex};

verus! {

/// Export filter flags
#[derive(Debug, Clone, Copy, PartialEq, Eq, Hash, Structural)]
pub enum EExportFilterFlags {
    /// No filter
    NoFilter,
    /// This export should not be loaded on the client
    NotForClient,
    /// This export should not be loaded on the server
    NotForServer,
}

/// The bits that object flags may hold.
pub const OBJECT_FLAGS_MASK: u32 = 0x0fff_ffff;

/// Minimal information about an export
#[derive(Debug, Clone)]
pub struct BaseExport {
    /// Class index
    pub class_index: PackageIndex,
    /// Super index
    pub super_index: PackageIndex,
    /// Template index
    pub template_index: PackageIndex,
    /// Outer index
    pub outer_index: PackageIndex,
    /// Object name
    pub object_name: NameIndex,
    /// Object flags
    pub object_flags: EObjectFlags,
    /// Serialized size
    pub serial_size: i64,
    /// Serialized offset
    pub serial_offset: i64,
    /// Is forced export
    pub forced_export: bool,
    /// Is not for client
    pub not_for_client: bool,
    /// Is not for server
    pub not_for_server: bool,
    /// Package guid
    pub package_guid: Guid,
    /// Is inherited instance
    pub is_inherited_instance: bool,
    /// Package flags
    pub package_flags: u32,
    /// Is not always loaded for editor game
    pub not_always_loaded_for_editor_game: bool,
    /// Is an asset
    pub is_asset: bool,
    /// Generate public hash
    pub generate_public_hash: bool,
    /// Public export hash. Interpreted as a global import PackageObjectIndex in UE4 assets
    pub public_export_hash: u64,
    /// First dependency serialized offset
    pub first_export_dependency_offset: i32,
    /// Dependencies that should be serialized before this export is serialized
    pub serialization_before_serialization_dependencies: Vec<PackageIndex>,
    /// Their count, as read
    pub serialization_before_serialization_dependencies_size: i32,
    /// Dependencies that should be created before this export is serialized
    pub create_before_serialization_dependencies: Vec<PackageIndex>,
    /// Their count, as read
    pub create_before_serialization_dependencies_size: i32,
    /// Dependencies that should be serialized before this export is created
    pub serialization_before_create_dependencies: Vec<PackageIndex>,
    /// Their count, as read
    pub serialization_before_create_dependencies_size: i32,
    /// Dependencies that should be created before this export is created
    pub create_before_create_dependencies: Vec<PackageIndex>,
    /// Their count, as read
    pub create_before_create_dependencies_size: i32,
    /// Padding
    pub padding: [u8; 3],
}

/// What an export map entry holds.
pub struct ExportEntryFields {
    /// Class, super, template and outer indices
    pub indices: (i32, i32, i32, i32),
    /// Object name
    pub object_name: NameIndex,
    /// Object flags
    pub object_flags: u32,
    /// Serialized size and offset
    pub serial: (i64, i64),
    /// Forced export, not for client, not for server
    pub load_flags: (bool, bool, bool),
    /// Package guid
    pub package_guid: Seq<u8>,
    /// Is inherited instance
    pub is_inherited_instance: bool,
    /// Package flags
    pub package_flags: u32,
    /// Not always loaded for editor game, is asset, generate public hash
    pub editor_flags: (bool, bool, bool),
    /// First dependency offset, then the four dependency counts
    pub dependencies: (i32, i32, i32, i32, i32),
}

/// The little-endian `i32` at `off` in `b`.
pub open spec fn i32_at(b: Seq<u8>, off: int) -> i32 {
    (le_value(b.subrange(off, off + 4)) as u32) as i32
}

/// The little-endian `u32` at `off` in `b`.
pub open spec fn u32_in(b: Seq<u8>, off: int) -> u32 {
    le_value(b.subrange(off, off + 4)) as u32
}

/// The little-endian `i64` at `off` in `b`.
pub open spec fn i64_at(b: Seq<u8>, off: int) -> i64 {
    (le_value(b.subrange(off, off + 8)) as u64) as i64
}

/// The bytes of the template index: present from the object version that cooks it.
pub open spec fn template_len(ov: i32) -> int { if ov >= VER_UE4_TEMPLATE_INDEX_IN_COOKED_EXPORTS { 4 } else { 0 } }

/// The bytes of the serial size and offset: 32-bit before the object version that widens them.
pub open spec fn sizes_len(ov: i32) -> int { if ov < VER_UE4_64BIT_EXPORTMAP_SERIALSIZES { 8 } else { 16 } }

/// The bytes of the inherited instance flag.
pub open spec fn inherited_len(ov5: i32) -> int { if ov5 >= TRACK_OBJECT_EXPORT_IS_INHERITED { 4 } else { 0 } }

/// The bytes of the editor game flag.
pub open spec fn editor_len(ov: i32) -> int { if ov >= VER_UE4_LOAD_FOR_EDITOR_GAME { 4 } else { 0 } }

/// The bytes of the is-asset flag.
pub open spec fn asset_len(ov: i32) -> int { if ov >= VER_UE4_COOKED_ASSETS_IN_EDITOR_SUPPORT { 4 } else { 0 } }

/// The bytes of the generate-public-hash flag.
pub open spec fn public_hash_len(ov5: i32) -> int { if ov5 >= OPTIONAL_RESOURCES { 4 } else { 0 } }

/// The bytes of the dependency offset and counts.
pub open spec fn dependencies_len(ov: i32) -> int { if ov >= VER_UE4_PRELOAD_DEPENDENCIES_IN_COOKED_EXPORTS { 20 } else { 0 } }

/// Where the outer index lies.
pub open spec fn outer_at(ov: i32) -> int { 8 + template_len(ov) }

/// Where the serial size lies.
pub open spec fn sizes_at(ov: i32) -> int { outer_at(ov) + 16 }

/// Where the package guid lies.
pub open spec fn guid_at(ov: i32) -> int { sizes_at(ov) + sizes_len(ov) + 12 }

/// Where the package flags lie.
pub open spec fn package_flags_at(ov: i32, ov5: i32) -> int { guid_at(ov) + 16 + inherited_len(ov5) }

/// Where the dependency offset lies.
pub open spec fn dependencies_at(ov: i32, ov5: i32) -> int {
    package_flags_at(ov, ov5) + 4 + editor_len(ov) + asset_len(ov) + public_hash_len(ov5)
}

/// The number of bytes of an export map entry.
pub open spec fn entry_len(ov: i32, ov5: i32) -> int {
    dependencies_at(ov, ov5) + dependencies_len(ov)
}

/// What the export map entry held by `b` says, with absent fields false or zero.
pub open spec fn decode_entry(b: Seq<u8>, ov: i32, ov5: i32) -> ExportEntryFields {
    let o = outer_at(ov);
    let z = sizes_at(ov);
    let g = guid_at(ov);
    let p = package_flags_at(ov, ov5);
    let d = dependencies_at(ov, ov5);
    ExportEntryFields {
        indices: (i32_at(b, 0), i32_at(b, 4), if template_len(ov) == 4 { i32_at(b, 8) } else { 0 }, i32_at(b, o)),
        object_name: NameIndex { index: i32_at(b, o + 4), number: i32_at(b, o + 8) },
        object_flags: u32_in(b, o + 12),
        serial: if sizes_len(ov) == 8 {
            (i32_at(b, z) as i64, i32_at(b, z + 4) as i64)
        } else {
            (i64_at(b, z), i64_at(b, z + 8))
        },
        load_flags: (i32_at(b, g - 12) == 1, i32_at(b, g - 8) == 1, i32_at(b, g - 4) == 1),
        package_guid: b.subrange(g, g + 16),
        is_inherited_instance: inherited_len(ov5) == 4 && i32_at(b, g + 16) == 1,
        package_flags: u32_in(b, p),
        editor_flags: (
            editor_len(ov) == 4 && i32_at(b, p + 4) == 1,
            asset_len(ov) == 4 && i32_at(b, p + 4 + editor_len(ov)) == 1,
            public_hash_len(ov5) == 4 && i32_at(b, p + 4 + editor_len(ov) + asset_len(ov)) == 1,
        ),
        dependencies: if dependencies_len(ov) == 20 {
            (i32_at(b, d), i32_at(b, d + 4), i32_at(b, d + 8), i32_at(b, d + 12), i32_at(b, d + 16))
        } else {
            (0, 0, 0, 0, 0)
        },
    }
}

/// The export map entry at the start of `s`, when its name lies in a name map of
/// `name_map_size` names and its object flags are known ones.
pub open spec fn parse_entry(s: Seq<u8>, ov: i32, ov5: i32, name_map_size: usize) -> Option<(ExportEntryFields, int)> {
    let n = entry_len(ov, ov5);
    if s.len() >= n {
        let f = decode_entry(s.take(n), ov, ov5);
        if 0 <= f.object_name.index < name_map_size && f.object_flags & !OBJECT_FLAGS_MASK == 0 {
            Some((f, n))
        } else {
            None
        }
    } else {
        None
    }
}

/// The encoding of a boolean as an `i32`.
pub open spec fn ser_bool(b: bool) -> Seq<u8> {
    ser_i32(if b { 1 } else { 0 })
}

impl BaseExport {
    /// What the export holds of an export map entry.
    pub open spec fn fields(&self) -> ExportEntryFields {
        ExportEntryFields {
            indices: (self.class_index.index, self.super_index.index, self.template_index.index, self.outer_index.index),
            object_name: self.object_name,
            object_flags: self.object_flags.bits,
            serial: (self.serial_size, self.serial_offset),
            load_flags: (self.forced_export, self.not_for_client, self.not_for_server),
            package_guid: self.package_guid@,
            is_inherited_instance: self.is_inherited_instance,
            package_flags: self.package_flags,
            editor_flags: (self.not_always_loaded_for_editor_game, self.is_asset, self.generate_public_hash),
            dependencies: (
                self.first_export_dependency_offset,
                self.serialization_before_serialization_dependencies_size,
                self.create_before_serialization_dependencies_size,
                self.serialization_before_create_dependencies_size,
                self.create_before_create_dependencies_size,
            ),
        }
    }

    /// The first part of the encoding: indices, name and object flags.
    pub open spec fn ser_head(&self, ov: i32) -> Seq<u8> {
        ser_i32(self.class_index.index) + ser_i32(self.super_index.index)
            + (if ov >= VER_UE4_TEMPLATE_INDEX_IN_COOKED_EXPORTS { ser_i32(self.template_index.index) } else { Seq::empty() })
            + ser_i32(self.outer_index.index) + ser_i32(self.object_name.index) + ser_i32(self.object_name.number)
            + ser_u32(self.object_flags.bits)
    }

    /// The load flags and package guid.
    pub open spec fn ser_load(&self) -> Seq<u8> {
        ser_bool(self.forced_export) + ser_bool(self.not_for_client) + ser_bool(self.not_for_server)
            + self.package_guid@
    }

    /// The inherited instance flag, package flags and editor flags.
    pub open spec fn ser_tail(&self, ov: i32, ov5: i32) -> Seq<u8> {
        (if ov5 >= TRACK_OBJECT_EXPORT_IS_INHERITED { ser_bool(self.is_inherited_instance) } else { Seq::empty() })
            + ser_u32(self.package_flags)
            + (if ov >= VER_UE4_LOAD_FOR_EDITOR_GAME { ser_bool(self.not_always_loaded_for_editor_game) } else { Seq::empty() })
            + (if ov >= VER_UE4_COOKED_ASSETS_IN_EDITOR_SUPPORT { ser_bool(self.is_asset) } else { Seq::empty() })
            + (if ov5 >= OPTIONAL_RESOURCES { ser_bool(self.generate_public_hash) } else { Seq::empty() })
    }

    /// The first dependency offset and the dependency counts.
    pub open spec fn ser_dependencies(&self, ov: i32, dep_offset: i32) -> Seq<u8> {
        if ov >= VER_UE4_PRELOAD_DEPENDENCIES_IN_COOKED_EXPORTS {
            ser_i32(dep_offset)
                + ser_i32(self.serialization_before_serialization_dependencies@.len() as i32)
                + ser_i32(self.create_before_serialization_dependencies@.len() as i32)
                + ser_i32(self.serialization_before_create_dependencies@.len() as i32)
                + ser_i32(self.create_before_create_dependencies@.len() as i32)
        } else {
            Seq::empty()
        }
    }

    /// The encoding of the export map entry of the export, with the given serial size and
    /// offset and first dependency offset, and the lengths of its dependency lists.
    pub open spec fn spec_ser(&self, ov: i32, ov5: i32, serial_size: i64, serial_offset: i64, dep_offset: i32) -> Seq<u8> {
        self.ser_head(ov) + ser_sizes(ov, serial_size, serial_offset) + self.ser_load() + self.ser_tail(ov, ov5)
            + self.ser_dependencies(ov, dep_offset)
    }
}

/// The serial size and offset, 32-bit before the object version that widens them.
pub open spec fn ser_sizes(ov: i32, serial_size: i64, serial_offset: i64) -> Seq<u8> {
    if ov < VER_UE4_64BIT_EXPORTMAP_SERIALSIZES {
        ser_i32(serial_size as i32) + ser_i32(serial_offset as i32)
    } else {
        ser_i64(serial_size) + ser_i64(serial_offset)
    }
}

/// The exec form of the layout lengths.
fn layout(ov: i32, ov5: i32) -> (r: (usize, usize, usize, usize, usize, usize, usize))
    ensures
        r.0 == template_len(ov),
        r.1 == sizes_len(ov),
        r.2 == inherited_len(ov5),
        r.3 == editor_len(ov),
        r.4 == asset_len(ov),
        r.5 == public_hash_len(ov5),
        r.6 == dependencies_len(ov),
{
    (
        if ov >= VER_UE4_TEMPLATE_INDEX_IN_COOKED_EXPORTS { 4 } else { 0 },
        if ov < VER_UE4_64BIT_EXPORTMAP_SERIALSIZES { 8 } else { 16 },
        if ov5 >= TRACK_OBJECT_EXPORT_IS_INHERITED { 4 } else { 0 },
        if ov >= VER_UE4_LOAD_FOR_EDITOR_GAME { 4 } else { 0 },
        if ov >= VER_UE4_COOKED_ASSETS_IN_EDITOR_SUPPORT { 4 } else { 0 },
        if ov5 >= OPTIONAL_RESOURCES { 4 } else { 0 },
        if ov >= VER_UE4_PRELOAD_DEPENDENCIES_IN_COOKED_EXPORTS { 20 } else { 0 },
    )
}

/// The `i32` at `off` in `b`.
fn i32_of(b: &[u8], off: usize) -> (r: i32)
    requires off + 4 <= b@.len(),
    ensures r == i32_at(b@, off as int),
{
    u32_at(b, off) as i32
}

/// The `i64` at `off` in `b`.
fn i64_of(b: &[u8], off: usize) -> (r: i64)
    requires off + 8 <= b@.len(),
    ensures r == i64_at(b@, off as int),
{
    u64_at(b, off) as i64
}

impl BaseExport {
    /// Read the export map entry of an export; the dependency lists are left empty, their
    /// counts kept.
    #[verifier::spinoff_prover]
    #[verifier::rlimit(60)]
    pub fn read_export_map_entry(reader: &mut ByteReader, ov: i32, ov5: i32, name_map_size: usize) -> (res: Result<Self, Error>)
        ensures
            final(reader).data@ == old(reader).data@,
            match res {
                Ok(e) => parse_entry(old(reader).remaining(), ov, ov5, name_map_size)
                    == Some((e.fields(), final(reader).pos - old(reader).pos))
                    && e.serialization_before_serialization_dependencies@.len() == 0
                    && e.create_before_serialization_dependencies@.len() == 0
                    && e.serialization_before_create_dependencies@.len() == 0
                    && e.create_before_create_dependencies@.len() == 0
                    && e.padding@ == seq![0u8, 0u8, 0u8]
                    && e.public_export_hash == 0,
                Err(_) => old(reader).archive_type != ArchiveType::UAsset
                    || parse_entry(old(reader).remaining(), ov, ov5, name_map_size) is None,
            },
            old(reader).archive_type != ArchiveType::UAsset ==> final(reader).pos == old(reader).pos
                && (res matches Err(Error::ArchiveTypeMismatch(v, t)) && t == old(reader).archive_type
                    && v@ == seq![ArchiveType::UAsset, ArchiveType::Zen]),
            res is Ok ==> old(reader).archive_type == ArchiveType::UAsset,
    {
        if reader.archive_type != ArchiveType::UAsset {
            return Err(Error::archive_type_mismatch(reader.archive_type));
        }
        let (t, sz, inh, ed, asl, ph, dl) = layout(ov, ov5);
        let o = 8 + t;
        let z = o + 16;
        let g = z + sz + 12;
        let p = g + 16 + inh;
        let d = p + 4 + ed + asl + ph;
        let n = d + dl;
        let rec = reader.read_record(n)?;
        let b = rec.as_slice();
        let ghost s = old(reader).remaining();
        assert(b@ == s.take(n as int));
        let name_index = i32_of(b, o + 4);
        let flags = u32_at(b, o + 12);
        if name_index < 0 || name_index as usize >= name_map_size {
            return Err(Error::fname(name_index, name_map_size));
        }
        if flags & !OBJECT_FLAGS_MASK != 0 {
            return Err(Error::invalid_file(String::from_str("Invalid property flags")));
        }
        let (serial_size, serial_offset) = if sz == 8 {
            (i32_of(b, z) as i64, i32_of(b, z + 4) as i64)
        } else {
            (i64_of(b, z), i64_of(b, z + 8))
        };
        let package_guid: Guid = [
            b[g], b[g + 1], b[g + 2], b[g + 3], b[g + 4], b[g + 5], b[g + 6], b[g + 7],
            b[g + 8], b[g + 9], b[g + 10], b[g + 11], b[g + 12], b[g + 13], b[g + 14], b[g + 15],
        ];
        assert(package_guid@ =~= b@.subrange(g as int, g + 16));
        let export = BaseExport {
            class_index: PackageIndex::new(i32_of(b, 0)),
            super_index: PackageIndex::new(i32_of(b, 4)),
            template_index: PackageIndex::new(if t == 4 { i32_of(b, 8) } else { 0 }),
            outer_index: PackageIndex::new(i32_of(b, o)),
            object_name: NameIndex { index: name_index, number: i32_of(b, o + 8) },
            object_flags: EObjectFlags::from_bits_retain(flags),
            serial_size,
            serial_offset,
            forced_export: i32_of(b, g - 12) == 1,
            not_for_client: i32_of(b, g - 8) == 1,
            not_for_server: i32_of(b, g - 4) == 1,
            package_guid,
            is_inherited_instance: inh == 4 && i32_of(b, g + 16) == 1,
            package_flags: u32_at(b, p),
            not_always_loaded_for_editor_game: ed == 4 && i32_of(b, p + 4) == 1,
            is_asset: asl == 4 && i32_of(b, p + 4 + ed) == 1,
            generate_public_hash: ph == 4 && i32_of(b, p + 4 + ed + asl) == 1,
            public_export_hash: 0,
            first_export_dependency_offset: if dl == 20 { i32_of(b, d) } else { 0 },
            serialization_before_serialization_dependencies: Vec::new(),
            serialization_before_serialization_dependencies_size: if dl == 20 { i32_of(b, d + 4) } else { 0 },
            create_before_serialization_dependencies: Vec::new(),
            create_before_serialization_dependencies_size: if dl == 20 { i32_of(b, d + 8) } else { 0 },
            serialization_before_create_dependencies: Vec::new(),
            serialization_before_create_dependencies_size: if dl == 20 { i32_of(b, d + 12) } else { 0 },
            create_before_create_dependencies: Vec::new(),
            create_before_create_dependencies_size: if dl == 20 { i32_of(b, d + 16) } else { 0 },
            padding: [0u8; 3],
        };
        proof {
            assert(export.padding@ =~= seq![0u8, 0u8, 0u8]);
            assert(export.fields() == decode_entry(s.take(n as int), ov, ov5));
        }
        Ok(export)
    }

    /// Writes the indices, name and object flags.
    fn write_head(&self, writer: &mut ByteWriter, ov: i32)
        ensures final(writer).data@ == old(writer).data@ + self.ser_head(ov),
    {
        writer.write_i32(self.class_index.index);
        writer.write_i32(self.super_index.index);
        if ov >= VER_UE4_TEMPLATE_INDEX_IN_COOKED_EXPORTS {
            writer.write_i32(self.template_index.index);
        }
        writer.write_i32(self.outer_index.index);
        writer.write_i32(self.object_name.index);
        writer.write_i32(self.object_name.number);
        writer.write_u32(self.object_flags.bits());
        assert(final(writer).data@ =~= old(writer).data@ + self.ser_head(ov));
    }

    /// Writes the load flags and package guid.
    fn write_load(&self, writer: &mut ByteWriter)
        ensures final(writer).data@ == old(writer).data@ + self.ser_load(),
    {
        writer.write_i32(if self.forced_export { 1 } else { 0 });
        writer.write_i32(if self.not_for_client { 1 } else { 0 });
        writer.write_i32(if self.not_for_server { 1 } else { 0 });
        writer.write_bytes(&self.package_guid);
        assert(final(writer).data@ =~= old(writer).data@ + self.ser_load());
    }

    /// Writes the inherited instance flag, package flags and editor flags.
    fn write_tail(&self, writer: &mut ByteWriter, ov: i32, ov5: i32)
        ensures final(writer).data@ == old(writer).data@ + self.ser_tail(ov, ov5),
    {
        let ghost d0 = writer.data@;
        let ghost a = if ov5 >= TRACK_OBJECT_EXPORT_IS_INHERITED { ser_bool(self.is_inherited_instance) } else { Seq::empty() };
        let ghost b = ser_u32(self.package_flags);
        let ghost c = if ov >= VER_UE4_LOAD_FOR_EDITOR_GAME { ser_bool(self.not_always_loaded_for_editor_game) } else { Seq::empty() };
        let ghost d = if ov >= VER_UE4_COOKED_ASSETS_IN_EDITOR_SUPPORT { ser_bool(self.is_asset) } else { Seq::empty() };
        let ghost e = if ov5 >= OPTIONAL_RESOURCES { ser_bool(self.generate_public_hash) } else { Seq::empty() };
        if ov5 >= TRACK_OBJECT_EXPORT_IS_INHERITED {
            writer.write_i32(if self.is_inherited_instance { 1 } else { 0 });
        }
        assert(writer.data@ =~= d0 + a);
        writer.write_u32(self.package_flags);
        assert(writer.data@ =~= d0 + (a + b));
        if ov >= VER_UE4_LOAD_FOR_EDITOR_GAME {
            writer.write_i32(if self.not_always_loaded_for_editor_game { 1 } else { 0 });
        }
        assert(writer.data@ =~= d0 + (a + b + c));
        if ov >= VER_UE4_COOKED_ASSETS_IN_EDITOR_SUPPORT {
            writer.write_i32(if self.is_asset { 1 } else { 0 });
        }
        assert(writer.data@ =~= d0 + (a + b + c + d));
        if ov5 >= OPTIONAL_RESOURCES {
            writer.write_i32(if self.generate_public_hash { 1 } else { 0 });
        }
        assert(writer.data@ =~= d0 + (a + b + c + d + e));
    }

    /// Writes the first dependency offset and the dependency counts.
    fn write_dependencies(&self, writer: &mut ByteWriter, ov: i32, dep_offset: i32)
        ensures final(writer).data@ == old(writer).data@ + self.ser_dependencies(ov, dep_offset),
    {
        if ov >= VER_UE4_PRELOAD_DEPENDENCIES_IN_COOKED_EXPORTS {
            writer.write_i32(dep_offset);
            writer.write_i32(self.serialization_before_serialization_dependencies.len() as i32);
            writer.write_i32(self.create_before_serialization_dependencies.len() as i32);
            writer.write_i32(self.serialization_before_create_dependencies.len() as i32);
            writer.write_i32(self.create_before_create_dependencies.len() as i32);
        }
        assert(final(writer).data@ =~= old(writer).data@ + self.ser_dependencies(ov, dep_offset));
    }

    /// Write the export map entry of an export
    pub fn write_export_map_entry(
        &self,
        writer: &mut ByteWriter,
        ov: i32,
        ov5: i32,
        serial_size: i64,
        serial_offset: i64,
        first_export_dependency_offset: i32,
    ) -> (res: Result<(), Error>)
        ensures
            old(writer).archive_type == ArchiveType::UAsset ==> res is Ok
                && final(writer).data@ == old(writer).data@ + self.spec_ser(ov, ov5, serial_size, serial_offset, first_export_dependency_offset),
            old(writer).archive_type != ArchiveType::UAsset ==> final(writer).data@ == old(writer).data@
                && (res matches Err(Error::ArchiveTypeMismatch(v, t)) && t == old(writer).archive_type
                    && v@ == seq![ArchiveType::UAsset, ArchiveType::Zen]),
    {
        if writer.archive_type != ArchiveType::UAsset {
            return Err(Error::archive_type_mismatch(writer.archive_type));
        }
        self.write_head(writer, ov);
        if ov < VER_UE4_64BIT_EXPORTMAP_SERIALSIZES {
            writer.write_i32(serial_size as i32);
            writer.write_i32(serial_offset as i32);
        } else {
            writer.write_i64(serial_size);
            writer.write_i64(serial_offset);
        }
        self.write_load(writer);
        self.write_tail(writer, ov, ov5);
        self.write_dependencies(writer, ov, first_export_dependency_offset);
        assert(final(writer).data@ =~= old(writer).data@
            + self.spec_ser(ov, ov5, serial_size, serial_offset, first_export_dependency_offset));
        Ok(())
    }
}

impl Default for BaseExport {
    fn default() -> (r: Self)
        ensures
            r.fields() == (ExportEntryFields {
                indices: (0, 0, 0, 0),
                object_name: NameIndex { index: 0, number: 0 },
                object_flags: 0,
                serial: (0, 0),
                load_flags: (false, false, false),
                package_guid: seq![0u8, 0u8, 0u8, 0u8, 0u8, 0u8, 0u8, 0u8, 0u8, 0u8, 0u8, 0u8, 0u8, 0u8, 0u8, 0u8],
                is_inherited_instance: false,
                package_flags: 0,
                editor_flags: (false, false, false),
                dependencies: (0, 0, 0, 0, 0),
            }),
            r.serialization_before_serialization_dependencies@.len() == 0,
            r.create_before_serialization_dependencies@.len() == 0,
            r.serialization_before_create_dependencies@.len() == 0,
            r.create_before_create_dependencies@.len() == 0,
            r.public_export_hash == 0,
    {
        let r = BaseExport {
            class_index: PackageIndex::new(0),
            super_index: PackageIndex::new(0),
            template_index: PackageIndex::new(0),
            outer_index: PackageIndex::new(0),
            object_name: NameIndex { index: 0, number: 0 },
            object_flags: EObjectFlags::from_bits_retain(0),
            serial_size: 0,
            serial_offset: 0,
            forced_export: false,
            not_for_client: false,
            not_for_server: false,
            package_guid: [0u8; 16],
            is_inherited_instance: false,
            package_flags: 0,
            not_always_loaded_for_editor_game: false,
            is_asset: false,
            generate_public_hash: false,
            public_export_hash: 0,
            first_export_dependency_offset: 0,
            serialization_before_serialization_dependencies: Vec::new(),
            serialization_before_serialization_dependencies_size: 0,
            create_before_serialization_dependencies: Vec::new(),
            create_before_serialization_dependencies_size: 0,
            serialization_before_create_dependencies: Vec::new(),
            serialization_before_create_dependencies_size: 0,
            create_before_create_dependencies: Vec::new(),
            create_before_create_dependencies_size: 0,
            padding: [0u8; 3],
        };
        assert(r.package_guid@ =~= seq![0u8, 0u8, 0u8, 0u8, 0u8, 0u8, 0u8, 0u8, 0u8, 0u8, 0u8, 0u8, 0u8, 0u8, 0u8, 0u8]);
        r
    }
}

/// The import that a negative package index names in a list of `n` imports: the position
/// `-index - 1`, where it lies in the list.
pub open spec fn import_position(index: i32, n: nat) -> Option<int> {
    if index < 0 && -index - 1 < n { Some(-index - 1) } else { None }
}

impl BaseExport {
    /// The class type of the first parent in the export's ancestry: where the class is an
    /// import, the object name of that import, from `import_object_names`; else the name of
    /// the asset's parent class export, where it has one. `None` stands for the default name,
    /// where neither is known.
    pub fn get_class_type_for_ancestry(&self, import_object_names: &Vec<NameIndex>, parent_class_export_name: Option<NameIndex>)
        -> (r: Option<NameIndex>)
        ensures
            r == if self.class_index.index < 0 {
                match import_position(self.class_index.index, import_object_names@.len()) {
                    Some(i) => Some(import_object_names@[i]),
                    None => None,
                }
            } else {
                parent_class_export_name
            },
    {
        let index = self.class_index.index;
        if index < 0 {
            let k: i64 = -(index as i64) - 1;
            if (k as u64) < (import_object_names.len() as u64) {
                Some(import_object_names[k as usize])
            } else {
                None
            }
        } else {
            parent_class_export_name
        }
    }
}

impl BaseExport {
    /// Get the size of an export map entry under object versions
    pub fn get_export_map_entry_size(ov: i32, ov5: i32) -> (r: u64)
        ensures r == entry_len(ov, ov5),
    {
        let default_export = BaseExport::default();
        let mut writer = ByteWriter::new();
        let _ = default_export.write_export_map_entry(&mut writer, ov, ov5, 0, 0, 0);
        proof { lemma_ser_len(&default_export, ov, ov5, 0, 0, 0); }
        writer.position()
    }
}

/// The encoding of an export map entry takes `entry_len` bytes.
pub proof fn lemma_ser_len(e: &BaseExport, ov: i32, ov5: i32, serial_size: i64, serial_offset: i64, dep_offset: i32)
    ensures e.spec_ser(ov, ov5, serial_size, serial_offset, dep_offset).len() == entry_len(ov, ov5),
{
    assert forall|x: i32| #[trigger] ser_i32(x).len() == 4 by {
        crate::archive::lemma_ser_values(0, 0, 0, x, 0);
    }
    assert forall|x: u32| #[trigger] ser_u32(x).len() == 4 by {
        crate::archive::lemma_ser_values(0, x, 0, 0, 0);
    }
    assert forall|x: i64| #[trigger] ser_i64(x).len() == 8 by {
        crate::archive::lemma_ser_values(0, 0, 0, 0, x);
    }
    assert(e.ser_head(ov).len() == outer_at(ov) + 16);
    assert(ser_sizes(ov, serial_size, serial_offset).len() == sizes_len(ov));
    assert(e.ser_load().len() == 28);
    assert(e.ser_tail(ov, ov5).len() == inherited_len(ov5) + 4 + editor_len(ov) + asset_len(ov) + public_hash_len(ov5));
    assert(e.ser_dependencies(ov, dep_offset).len() == dependencies_len(ov));
}

} // verus!
