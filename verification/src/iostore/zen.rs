//! The zen package header of IoStore assets: the package summary, and the tables that it
//! locates.

use vstd::prelude::*;
use crate::archive::{ByteReader, ByteWriter, Record, stepped, rest, u32_at, ser_u32, ser_i32, lemma_ser_values, parse_repeat, record_parser, models,
    read_repeat, lemma_advance, lemma_repeat_step, lemma_repeat_none, ser_repeat, lemma_repeat_roundtrip, parse_i32};
use crate::engine_version::{EngineVersion, CustomVersionView, DATA_RESOURCES, object_versions, get_object_versions};
use crate::archive::parse_u64;
use super::BulkDataMapEntry;
use super::name::FNameEntrySerialized;
use super::name_batch::{spec_parse_name_batch, read_name_batch, entry_names};
use crate::error::Error;
use crate::exports::base_export::i32_at;
use crate::iostore::toc::index::u32_in;
use super::exports::{sub8, IoStoreExportMapEntry, ExportBundleEntry, ExportBundleHeader};
use super::graph_data::FInternalArc;
use super::PackageObjectIndex;
use crate::version_registry::CustomVersion;
use super::name::FMappedName;

verus! {

/// Zen package summary
#[derive(Debug, Clone, Copy, PartialEq, Eq, Hash)]
pub struct ZenPackageSummary {
    /// Has versioning info
    pub has_versioning_info: bool,
    /// Header size
    pub header_size: u32,
    /// Name
    pub name: FMappedName,
    /// Package flags
    pub package_flags: u32,
    /// Cooked header size
    pub cooked_header_size: u32,
    /// Imported public export hashes offset
    pub imported_public_export_hashes_offset: i32,
    /// Import map offset
    pub import_map_offset: i32,
    /// Export map offset
    pub export_map_offset: i32,
    /// Export bundle entries offset
    pub export_bundle_entries_offset: i32,
    /// Graph data offset
    pub graph_data_offset: Option<i32>,
    /// Dependency bundle headers offset
    pub dependency_bundle_headers_offset: Option<i32>,
    /// Dependency bundle entries offset
    pub dependency_bundle_entries_offset: Option<i32>,
}

impl ZenPackageSummary {
    /// The number of bytes of a summary: from UE 5.3 on (`dependency_bundles`) it ends with
    /// the offsets of the dependency bundle headers and entries, before it with the offset of
    /// the graph data.
    pub open spec fn spec_len(dependency_bundles: bool) -> int {
        if dependency_bundles { 48 } else { 44 }
    }

    /// The summary at the start of `s`: a `u32` whose being above zero says that versioning
    /// info follows, the header size, the package name, the package flags, the cooked header
    /// size, the offsets of the imported public export hashes, the import map, the export map
    /// and the export bundle entries, then the offsets that the engine version keeps.
    pub open spec fn spec_parse(s: Seq<u8>, dependency_bundles: bool) -> Option<(Self, int)> {
        let len = Self::spec_len(dependency_bundles);
        if s.len() >= len {
            match FMappedName::spec_decode(s.subrange(8, 16)) {
                Some(name) => Some((ZenPackageSummary {
                    has_versioning_info: u32_in(s, 0) > 0,
                    header_size: u32_in(s, 4),
                    name,
                    package_flags: u32_in(s, 16),
                    cooked_header_size: u32_in(s, 20),
                    imported_public_export_hashes_offset: i32_at(s, 24),
                    import_map_offset: i32_at(s, 28),
                    export_map_offset: i32_at(s, 32),
                    export_bundle_entries_offset: i32_at(s, 36),
                    graph_data_offset: if dependency_bundles { None } else { Some(i32_at(s, 40)) },
                    dependency_bundle_headers_offset: if dependency_bundles { Some(i32_at(s, 40)) } else { None },
                    dependency_bundle_entries_offset: if dependency_bundles { Some(i32_at(s, 44)) } else { None },
                }, len)),
                None => None,
            }
        } else {
            None
        }
    }

    /// The encoding of the fields that every engine version writes.
    pub open spec fn spec_ser_head(self) -> Seq<u8> {
        ser_u32(if self.has_versioning_info { 1u32 } else { 0u32 }) + ser_u32(self.header_size)
            + self.name.spec_ser() + ser_u32(self.package_flags) + ser_u32(self.cooked_header_size)
            + ser_i32(self.imported_public_export_hashes_offset) + ser_i32(self.import_map_offset)
            + ser_i32(self.export_map_offset) + ser_i32(self.export_bundle_entries_offset)
    }

    /// Whether the summary holds the offsets that the engine version writes.
    pub open spec fn spec_writable(self, dependency_bundles: bool) -> bool {
        if dependency_bundles {
            self.dependency_bundle_headers_offset is Some && self.dependency_bundle_entries_offset is Some
        } else {
            self.graph_data_offset is Some
        }
    }

    /// The encoding of the summary.
    pub open spec fn spec_ser(self, dependency_bundles: bool) -> Seq<u8> {
        self.spec_ser_head() + if dependency_bundles {
            ser_i32(self.dependency_bundle_headers_offset->0) + ser_i32(self.dependency_bundle_entries_offset->0)
        } else {
            ser_i32(self.graph_data_offset->0)
        }
    }

    /// Write `ZenPackageSummary` to a writer; `dependency_bundles` says that the engine is UE 5.3
    /// or later. Where the summary lacks an offset that the engine version writes, the fields
    /// before it are written and the write fails.
    pub fn write(&self, writer: &mut ByteWriter, dependency_bundles: bool) -> (res: Result<(), Error>)
        ensures
            res is Ok <==> self.spec_writable(dependency_bundles),
            res is Ok ==> final(writer).data@ == old(writer).data@ + self.spec_ser(dependency_bundles),
            res matches Err(e) ==> (e matches Error::NoData(m) && m@ == (if dependency_bundles {
                if self.dependency_bundle_headers_offset is None {
                    "engine_version >= 5.3 but dependency_bundle_headers_offset is None"@
                } else {
                    "engine_version >= 5.3 but dependency_bundle_entries_offset is None"@
                }
            } else {
                "engine_version < 5.3 but graph_data_offset is None"@
            })),
    {
        writer.write_u32(if self.has_versioning_info { 1 } else { 0 });
        writer.write_u32(self.header_size);
        let _ = self.name.write(writer);
        writer.write_u32(self.package_flags);
        writer.write_u32(self.cooked_header_size);
        writer.write_i32(self.imported_public_export_hashes_offset);
        writer.write_i32(self.import_map_offset);
        writer.write_i32(self.export_map_offset);
        writer.write_i32(self.export_bundle_entries_offset);
        if dependency_bundles {
            let headers = match self.dependency_bundle_headers_offset {
                Some(o) => o,
                None => return Err(Error::no_data(String::from_str("engine_version >= 5.3 but dependency_bundle_headers_offset is None"))),
            };
            writer.write_i32(headers);
            let entries = match self.dependency_bundle_entries_offset {
                Some(o) => o,
                None => return Err(Error::no_data(String::from_str("engine_version >= 5.3 but dependency_bundle_entries_offset is None"))),
            };
            writer.write_i32(entries);
        } else {
            let graph = match self.graph_data_offset {
                Some(o) => o,
                None => return Err(Error::no_data(String::from_str("engine_version < 5.3 but graph_data_offset is None"))),
            };
            writer.write_i32(graph);
        }
        assert(final(writer).data@ =~= old(writer).data@ + self.spec_ser(dependency_bundles));
        Ok(())
    }

    /// Reading back the encoding of a summary gives the summary, when its name index fits 30
    /// bits, it holds just the offsets that the engine version writes, and it says that
    /// versioning info follows by a `true` that reads back.
    pub proof fn lemma_roundtrip(self, dependency_bundles: bool, r: Seq<u8>)
        requires
            self.name.index <= FMappedName::INDEX_MASK,
            self.spec_writable(dependency_bundles),
            dependency_bundles ==> self.graph_data_offset is None,
            !dependency_bundles ==> self.dependency_bundle_headers_offset is None && self.dependency_bundle_entries_offset is None,
        ensures
            self.spec_ser(dependency_bundles).len() == Self::spec_len(dependency_bundles),
            Self::spec_parse(self.spec_ser(dependency_bundles) + r, dependency_bundles)
                == Some((self, Self::spec_len(dependency_bundles))),
    {
        let v: u32 = if self.has_versioning_info { 1u32 } else { 0u32 };
        lemma_ser_values(0, v, 0, self.imported_public_export_hashes_offset, 0);
        lemma_ser_values(0, self.header_size, 0, self.import_map_offset, 0);
        lemma_ser_values(0, self.package_flags, 0, self.export_map_offset, 0);
        lemma_ser_values(0, self.cooked_header_size, 0, self.export_bundle_entries_offset, 0);
        self.name.lemma_roundtrip(Seq::empty());
        let s = self.spec_ser(dependency_bundles) + r;
        assert(s.subrange(0, 4) =~= ser_u32(v));
        assert(s.subrange(4, 8) =~= ser_u32(self.header_size));
        assert(s.subrange(8, 16) =~= self.name.spec_ser());
        assert(self.name.spec_ser() + Seq::<u8>::empty() =~= self.name.spec_ser());
        assert(self.name.spec_ser().take(8) =~= self.name.spec_ser());
        assert(s.subrange(16, 20) =~= ser_u32(self.package_flags));
        assert(s.subrange(20, 24) =~= ser_u32(self.cooked_header_size));
        assert(s.subrange(24, 28) =~= ser_i32(self.imported_public_export_hashes_offset));
        assert(s.subrange(28, 32) =~= ser_i32(self.import_map_offset));
        assert(s.subrange(32, 36) =~= ser_i32(self.export_map_offset));
        assert(s.subrange(36, 40) =~= ser_i32(self.export_bundle_entries_offset));
        if dependency_bundles {
            let a = self.dependency_bundle_headers_offset->0;
            let b = self.dependency_bundle_entries_offset->0;
            lemma_ser_values(0, 0, 0, a, 0);
            lemma_ser_values(0, 0, 0, b, 0);
            assert(s.subrange(40, 44) =~= ser_i32(a));
            assert(s.subrange(44, 48) =~= ser_i32(b));
        } else {
            let g = self.graph_data_offset->0;
            lemma_ser_values(0, 0, 0, g, 0);
            assert(s.subrange(40, 44) =~= ser_i32(g));
        }
    }

    /// Read `ZenPackageSummary` from a reader; `dependency_bundles` says that the engine is
    /// UE 5.3 or later.
    pub fn read(reader: &mut ByteReader, dependency_bundles: bool) -> (res: Result<Self, Error>)
        ensures stepped(*old(reader), *final(reader), res, Self::spec_parse(old(reader).remaining(), dependency_bundles)),
    {
        let len: usize = if dependency_bundles { 48 } else { 44 };
        let b = reader.read_record(len)?;
        let s = b.as_slice();
        let ghost rem = old(reader).remaining();
        let name_bytes = sub8(s, 8);
        proof {
            assert(b@ == rem.take(len as int));
            assert(name_bytes@ =~= rem.subrange(8, 16));
        }
        let name = FMappedName::decode(name_bytes.as_slice())?;
        let last = u32_at(s, 40) as i32;
        let r = ZenPackageSummary {
            has_versioning_info: u32_at(s, 0) > 0,
            header_size: u32_at(s, 4),
            name,
            package_flags: u32_at(s, 16),
            cooked_header_size: u32_at(s, 20),
            imported_public_export_hashes_offset: u32_at(s, 24) as i32,
            import_map_offset: u32_at(s, 28) as i32,
            export_map_offset: u32_at(s, 32) as i32,
            export_bundle_entries_offset: u32_at(s, 36) as i32,
            graph_data_offset: if dependency_bundles { None } else { Some(last) },
            dependency_bundle_headers_offset: if dependency_bundles { Some(last) } else { None },
            dependency_bundle_entries_offset: if dependency_bundles { Some(u32_at(s, 44) as i32) } else { None },
        };
        proof {
            assert forall|i: int| 0 <= i && i + 4 <= len implies #[trigger] b@.subrange(i, i + 4) == rem.subrange(i, i + 4) by {
                assert(b@.subrange(i, i + 4) =~= rem.subrange(i, i + 4));
            }
            assert(b@.subrange(0, 4) == rem.subrange(0, 4));
            assert(b@.subrange(4, 8) == rem.subrange(4, 8));
            assert(b@.subrange(16, 20) == rem.subrange(16, 20));
            assert(b@.subrange(20, 24) == rem.subrange(20, 24));
            assert(b@.subrange(24, 28) == rem.subrange(24, 28));
            assert(b@.subrange(28, 32) == rem.subrange(28, 32));
            assert(b@.subrange(32, 36) == rem.subrange(32, 36));
            assert(b@.subrange(36, 40) == rem.subrange(36, 40));
            assert(b@.subrange(40, 44) == rem.subrange(40, 44));
            if dependency_bundles {
                assert(b@.subrange(44, 48) == rem.subrange(44, 48));
            }
        }
        Ok(r)
    }
}

impl Record for PackageObjectIndex {
    type Model = PackageObjectIndex;

    open spec fn model(v: PackageObjectIndex) -> PackageObjectIndex { v }

    open spec fn parse_model(s: Seq<u8>) -> Option<(PackageObjectIndex, int)> { PackageObjectIndex::spec_parse(s) }

    open spec fn ser_model(m: PackageObjectIndex) -> Seq<u8> { m.spec_ser() }

    fn read_from(reader: &mut ByteReader) -> (res: Result<PackageObjectIndex, Error>) {
        PackageObjectIndex::read(reader)
    }

    fn write_to(&self, writer: &mut ByteWriter) {
        let _ = self.write(writer);
    }
}

impl Record for ExportBundleEntry {
    type Model = ExportBundleEntry;

    open spec fn model(v: ExportBundleEntry) -> ExportBundleEntry { v }

    open spec fn parse_model(s: Seq<u8>) -> Option<(ExportBundleEntry, int)> { ExportBundleEntry::spec_parse(s) }

    open spec fn ser_model(m: ExportBundleEntry) -> Seq<u8> { m.spec_ser() }

    fn read_from(reader: &mut ByteReader) -> (res: Result<ExportBundleEntry, Error>) {
        ExportBundleEntry::read(reader)
    }

    fn write_to(&self, writer: &mut ByteWriter) {
        let _ = self.write(writer);
    }
}

/// The parser of an export map entry of an engine version, as a function value.
pub open spec fn export_entry_parser(engine_version: EngineVersion) -> spec_fn(Seq<u8>) -> Option<(IoStoreExportMapEntry, int)> {
    |s: Seq<u8>| IoStoreExportMapEntry::spec_parse(s, engine_version)
}

/// Reads `n` export map entries, one after the other.
pub fn read_export_map(reader: &mut ByteReader, n: u32, engine_version: EngineVersion)
    -> (res: Result<Vec<IoStoreExportMapEntry>, Error>)
    ensures
        final(reader).data@ == old(reader).data@,
        match res {
            Ok(v) => parse_repeat(old(reader).remaining(), n as nat, export_entry_parser(engine_version))
                == Some((v@, final(reader).pos - old(reader).pos)),
            Err(_) => parse_repeat(old(reader).remaining(), n as nat, export_entry_parser(engine_version)) is None,
        },
{
    let ghost s = old(reader).remaining();
    let ghost p0 = reader.pos;
    let ghost f = export_entry_parser(engine_version);
    let mut v: Vec<IoStoreExportMapEntry> = Vec::new();
    let mut i: u32 = 0;
    proof {
        assert(rest(s, 0) =~= s);
        assert(reader.remaining() =~= s);
    }
    while i < n
        invariant
            reader.data@ == old(reader).data@,
            i <= n,
            p0 == old(reader).pos,
            s == old(reader).remaining(),
            f == export_entry_parser(engine_version),
            p0 <= reader.pos,
            reader.pos - p0 <= s.len(),
            parse_repeat(s, i as nat, f) == Some((v@, reader.pos - p0)),
            reader.remaining() == rest(s, reader.pos - p0),
        decreases n - i,
    {
        let ghost r0 = *reader;
        let ghost k = reader.pos - p0;
        let x = match IoStoreExportMapEntry::read(reader, engine_version) {
            Ok(x) => x,
            Err(e) => {
                proof {
                    lemma_repeat_step(s, (i + 1) as nat, f);
                    assert((i + 1) as nat - 1 == i as nat);
                    lemma_repeat_none(s, (i + 1) as nat, n as nat, f);
                }
                return Err(e);
            },
        };
        proof {
            lemma_advance(r0, *reader);
            lemma_repeat_step(s, (i + 1) as nat, f);
            assert((i + 1) as nat - 1 == i as nat);
            assert(rest(rest(s, k), reader.pos - r0.pos) =~= rest(s, reader.pos - p0));
        }
        v.push(x);
        i = i + 1;
    }
    Ok(v)
}

/// What zen versioning info holds: the zen version, the object versions of UE4 and UE5, the
/// licensee version, then the GUID and version number of each custom version.
pub struct VersioningView {
    /// Zen version
    pub zen_version: u32,
    /// Object version
    pub object_version: i32,
    /// Object version of UE5
    pub object_version_ue5: i32,
    /// File licensee version
    pub file_licensee_version: i32,
    /// Custom versions: GUID and version number
    pub custom_versions: Seq<CustomVersionView>,
}

/// The parser of a custom version, as a function value.
pub open spec fn custom_version_parser() -> spec_fn(Seq<u8>) -> Option<((Seq<u8>, i32), int)> {
    |s: Seq<u8>| CustomVersion::spec_parse(s)
}

/// The custom versions named by GUIDs and version numbers: each with the name and version
/// numbers by engine version that the registry of known custom versions gives its GUID.
pub open spec fn known_custom_versions(p: Seq<(Seq<u8>, i32)>) -> Seq<CustomVersionView> {
    p.map_values(|c: (Seq<u8>, i32)| CustomVersion::spec_new(c.0, c.1))
}

/// What each custom version holds.
pub open spec fn custom_version_views(v: Seq<CustomVersion>) -> Seq<CustomVersionView> {
    v.map_values(|c: CustomVersion| c.view())
}

/// The GUID and version number of each custom version.
pub open spec fn custom_version_models(v: Seq<CustomVersion>) -> Seq<(Seq<u8>, i32)> {
    v.map_values(|c: CustomVersion| (c.guid@, c.version))
}

/// The versioning info at the start of `s`: four 32-bit values, a count of custom versions,
/// then that many custom versions; a negative count is invalid.
pub open spec fn spec_parse_versioning(s: Seq<u8>) -> Option<(VersioningView, int)> {
    if s.len() >= 20 && i32_at(s, 16) >= 0 {
        match parse_repeat(rest(s, 20), i32_at(s, 16) as nat, custom_version_parser()) {
            Some((cv, k)) => Some((VersioningView {
                zen_version: u32_in(s, 0),
                object_version: i32_at(s, 4),
                object_version_ue5: i32_at(s, 8),
                file_licensee_version: i32_at(s, 12),
                custom_versions: known_custom_versions(cv),
            }, 20 + k)),
            None => None,
        }
    } else {
        None
    }
}

/// Zen package versioning info
pub struct ZenPackageVersioningInfo {
    /// Zen version
    pub zen_version: u32,
    /// Object version
    pub object_version: i32,
    /// Object version of UE5
    pub object_version_ue5: i32,
    /// File licensee version
    pub file_licensee_version: i32,
    /// Custom versions
    pub custom_versions: Vec<CustomVersion>,
}

impl View for ZenPackageVersioningInfo {
    type V = VersioningView;

    open spec fn view(&self) -> VersioningView {
        VersioningView {
            zen_version: self.zen_version,
            object_version: self.object_version,
            object_version_ue5: self.object_version_ue5,
            file_licensee_version: self.file_licensee_version,
            custom_versions: custom_version_views(self.custom_versions@),
        }
    }
}

/// The encoding of a custom version's GUID and version number.
pub open spec fn custom_version_writer() -> spec_fn((Seq<u8>, i32)) -> Seq<u8> {
    |c: (Seq<u8>, i32)| c.0 + ser_i32(c.1)
}

/// The GUID and version number of each custom version.
pub open spec fn custom_version_keys(v: Seq<CustomVersionView>) -> Seq<(Seq<u8>, i32)> {
    v.map_values(|c: CustomVersionView| (c.0, c.2))
}

/// The encoding of versioning info: the four 32-bit values, the count of custom versions and
/// the custom versions.
pub open spec fn spec_ser_versioning(v: VersioningView) -> Seq<u8> {
    ser_u32(v.zen_version) + ser_i32(v.object_version) + ser_i32(v.object_version_ue5)
        + ser_i32(v.file_licensee_version) + ser_i32(v.custom_versions.len() as i32)
        + ser_repeat(custom_version_keys(v.custom_versions), custom_version_writer())
}

/// Reading back the encoding of versioning info gives it, when its GUIDs have 16 bytes and
/// its count of custom versions fits an `i32`.
pub proof fn lemma_versioning_roundtrip(v: VersioningView, r: Seq<u8>)
    requires
        v.custom_versions.len() <= i32::MAX,
        forall|i: int| 0 <= i < v.custom_versions.len() ==> (#[trigger] v.custom_versions[i]).0.len() == 16
            && v.custom_versions[i] == CustomVersion::spec_new(v.custom_versions[i].0, v.custom_versions[i].2),
    ensures
        spec_parse_versioning(spec_ser_versioning(v) + r) == Some((v, spec_ser_versioning(v).len() as int)),
{
    let cv = custom_version_keys(v.custom_versions);
    let f = custom_version_parser();
    let g = custom_version_writer();
    assert forall|i: int, t: Seq<u8>| 0 <= i < cv.len() implies #[trigger] f(g(cv[i]) + t) == Some((cv[i], g(cv[i]).len() as int)) by {
        let c = cv[i];
        assert(c.0.len() == 16) by { assert(v.custom_versions[i].0.len() == 16); }
        lemma_ser_values(0, 0, 0, c.1, 0);
        let u = g(c) + t;
        assert(u.take(16) =~= c.0);
        assert(u.skip(16).take(4) =~= ser_i32(c.1));
        assert(parse_i32(u.skip(16)) == Some((c.1, 4int)));
    }
    lemma_repeat_roundtrip(cv, f, g, r);
    assert(known_custom_versions(cv) =~= v.custom_versions);
    let n = cv.len() as i32;
    lemma_ser_values(0, v.zen_version, 0, v.object_version, 0);
    lemma_ser_values(0, 0, 0, v.object_version_ue5, 0);
    lemma_ser_values(0, 0, 0, v.file_licensee_version, 0);
    lemma_ser_values(0, 0, 0, n, 0);
    let body = ser_repeat(cv, g);
    let s = spec_ser_versioning(v) + r;
    assert(s.subrange(0, 4) =~= ser_u32(v.zen_version));
    assert(s.subrange(4, 8) =~= ser_i32(v.object_version));
    assert(s.subrange(8, 12) =~= ser_i32(v.object_version_ue5));
    assert(s.subrange(12, 16) =~= ser_i32(v.file_licensee_version));
    assert(s.subrange(16, 20) =~= ser_i32(n));
    assert(rest(s, 20) =~= body + r);
}

impl ZenPackageVersioningInfo {
    /// Write `ZenPackageVersioningInfo` to a writer
    pub fn write(&self, writer: &mut ByteWriter) -> (res: Result<(), Error>)
        requires self.custom_versions@.len() <= i32::MAX,
        ensures res is Ok, final(writer).data@ == old(writer).data@ + spec_ser_versioning(self@),
    {
        writer.write_u32(self.zen_version);
        writer.write_i32(self.object_version);
        writer.write_i32(self.object_version_ue5);
        writer.write_i32(self.file_licensee_version);
        writer.write_i32(self.custom_versions.len() as i32);
        let ghost start = writer.data@;
        let ghost cv = custom_version_models(self.custom_versions@);
        assert(custom_version_keys(self@.custom_versions) =~= cv);
        let mut i: usize = 0;
        assert(cv.take(0) =~= Seq::<(Seq<u8>, i32)>::empty());
        while i < self.custom_versions.len()
            invariant
                i <= self.custom_versions.len(),
                cv == custom_version_models(self.custom_versions@),
                writer.data@ == start + ser_repeat(cv.take(i as int), custom_version_writer()),
            decreases self.custom_versions.len() - i,
        {
            let _ = self.custom_versions[i].write(writer);
            proof {
                assert(cv.take(i + 1).drop_last() =~= cv.take(i as int));
                assert(writer.data@ =~= start + ser_repeat(cv.take(i + 1), custom_version_writer()));
            }
            i = i + 1;
        }
        assert(cv.take(i as int) =~= cv);
        assert(final(writer).data@ =~= old(writer).data@ + spec_ser_versioning(self@));
        Ok(())
    }

    /// Read `ZenPackageVersioningInfo` from a reader
    #[verifier::spinoff_prover]
    #[verifier::rlimit(60)]
    pub fn read(reader: &mut ByteReader) -> (res: Result<Self, Error>)
        ensures
            stepped(*old(reader), *final(reader), match res { Ok(v) => Ok(v@), Err(e) => Err(e) },
                spec_parse_versioning(old(reader).remaining())),
            res is Ok ==> old(reader).pos <= final(reader).pos
                && final(reader).pos - old(reader).pos <= old(reader).remaining().len(),
    {
        let ghost s = old(reader).remaining();
        let b = reader.read_record(20)?;
        let bs = b.as_slice();
        proof {
            assert(b@ == s.take(20));
            assert forall|i: int| 0 <= i && i + 4 <= 20 implies #[trigger] b@.subrange(i, i + 4) == s.subrange(i, i + 4) by {
                assert(b@.subrange(i, i + 4) =~= s.subrange(i, i + 4));
            }
            assert(b@.subrange(0, 4) == s.subrange(0, 4));
            assert(b@.subrange(4, 8) == s.subrange(4, 8));
            assert(b@.subrange(8, 12) == s.subrange(8, 12));
            assert(b@.subrange(12, 16) == s.subrange(12, 16));
            assert(b@.subrange(16, 20) == s.subrange(16, 20));
        }
        let zen_version = u32_at(bs, 0);
        let object_version = u32_at(bs, 4) as i32;
        let object_version_ue5 = u32_at(bs, 8) as i32;
        let file_licensee_version = u32_at(bs, 12) as i32;
        let count = u32_at(bs, 16) as i32;
        assert(count == i32_at(s, 16));
        if count < 0 {
            return Err(Error::invalid_file(String::from_str("Negative custom version count")));
        }
        let ghost t = reader.remaining();
        let ghost p1 = reader.pos;
        let ghost f = custom_version_parser();
        proof { lemma_advance(*old(reader), *reader); }
        let mut v: Vec<CustomVersion> = Vec::new();
        let mut i: i32 = 0;
        proof {
            assert(custom_version_models(v@) =~= Seq::<(Seq<u8>, i32)>::empty());
            assert(custom_version_views(v@) =~= Seq::<CustomVersionView>::empty());
            assert(rest(t, 0) =~= t);
        }
        while i < count
            invariant
                reader.data@ == old(reader).data@,
                0 <= i <= count,
                t == rest(s, 20),
                s == old(reader).remaining(),
                s.len() >= 20,
                count == i32_at(s, 16),
                f == custom_version_parser(),
                p1 <= reader.pos,
                reader.pos - p1 <= t.len(),
                p1 == old(reader).pos + 20,
                parse_repeat(t, i as nat, f) == Some((custom_version_models(v@), reader.pos - p1)),
                custom_version_views(v@) == known_custom_versions(custom_version_models(v@)),
                reader.remaining() == rest(t, reader.pos - p1),
            decreases count - i,
        {
            let ghost r0 = *reader;
            let ghost k = reader.pos - p1;
            let c = match CustomVersion::read(reader) {
                Ok(c) => c,
                Err(e) => {
                    proof {
                        lemma_repeat_step(t, (i + 1) as nat, f);
                        assert((i + 1) as nat - 1 == i as nat);
                        lemma_repeat_none(t, (i + 1) as nat, count as nat, f);
                    }
                    return Err(e);
                },
            };
            proof {
                lemma_advance(r0, *reader);
                lemma_repeat_step(t, (i + 1) as nat, f);
                assert((i + 1) as nat - 1 == i as nat);
                assert(rest(rest(t, k), reader.pos - r0.pos) =~= rest(t, reader.pos - p1));
            }
            let ghost before = v@;
            v.push(c);
            proof {
                assert(custom_version_models(v@) =~= custom_version_models(before).push((c.guid@, c.version)));
                assert(custom_version_views(v@) =~= custom_version_views(before).push(c.view()));
                assert(known_custom_versions(custom_version_models(v@))
                    =~= known_custom_versions(custom_version_models(before)).push(CustomVersion::spec_new(c.guid@, c.version)));
            }
            i = i + 1;
        }
        Ok(ZenPackageVersioningInfo { zen_version, object_version, object_version_ue5, file_licensee_version, custom_versions: v })
    }
}

impl Record for ExportBundleHeader {
    type Model = ExportBundleHeader;

    open spec fn model(v: ExportBundleHeader) -> ExportBundleHeader { v }

    open spec fn parse_model(s: Seq<u8>) -> Option<(ExportBundleHeader, int)> { ExportBundleHeader::spec_parse(s) }

    open spec fn ser_model(m: ExportBundleHeader) -> Seq<u8> { m.spec_ser() }

    fn read_from(reader: &mut ByteReader) -> (res: Result<ExportBundleHeader, Error>) {
        ExportBundleHeader::read(reader)
    }

    fn write_to(&self, writer: &mut ByteWriter) {
        let _ = self.write(writer);
    }
}

impl Record for FInternalArc {
    type Model = FInternalArc;

    open spec fn model(v: FInternalArc) -> FInternalArc { v }

    open spec fn parse_model(s: Seq<u8>) -> Option<(FInternalArc, int)> { FInternalArc::spec_parse(s) }

    open spec fn ser_model(m: FInternalArc) -> Seq<u8> { m.spec_ser() }

    fn read_from(reader: &mut ByteReader) -> (res: Result<FInternalArc, Error>) {
        FInternalArc::read(reader)
    }

    fn write_to(&self, writer: &mut ByteWriter) {
        let _ = self.write(writer);
    }
}

/// What the graph data of a package holds: its export bundle headers and its internal arcs.
pub struct GraphView {
    /// Export bundle headers
    pub export_bundle_headers: Seq<ExportBundleHeader>,
    /// Internal arcs
    pub internal_arcs: Seq<FInternalArc>,
}

/// The graph data at the start of `s` of a package that imports no package and has one export
/// bundle: the bundle's header, then a count of internal arcs and the arcs; a negative count
/// is invalid.
pub open spec fn spec_parse_graph(s: Seq<u8>) -> Option<GraphView> {
    if s.len() >= 20 && i32_at(s, 16) >= 0 {
        match (
            parse_repeat(s, 1, record_parser::<ExportBundleHeader>()),
            parse_repeat(rest(s, 20), i32_at(s, 16) as nat, record_parser::<FInternalArc>()),
        ) {
            (Some((h, _)), Some((a, _))) => Some(GraphView { export_bundle_headers: h, internal_arcs: a }),
            _ => None,
        }
    } else {
        None
    }
}

/// The graph data of a package.
pub struct IoStoreGraphData {
    /// Export bundle headers
    pub export_bundle_headers: Vec<ExportBundleHeader>,
    /// Internal arcs
    pub internal_arcs: Vec<FInternalArc>,
}

impl View for IoStoreGraphData {
    type V = GraphView;

    open spec fn view(&self) -> GraphView {
        GraphView { export_bundle_headers: self.export_bundle_headers@, internal_arcs: self.internal_arcs@ }
    }
}

impl IoStoreGraphData {
    /// Read the graph data of a package that imports no package and has one export bundle.
    pub fn read(reader: &mut ByteReader) -> (res: Result<Self, Error>)
        ensures
            final(reader).data@ == old(reader).data@,
            match res {
                Ok(g) => spec_parse_graph(old(reader).remaining()) == Some(g@),
                Err(_) => spec_parse_graph(old(reader).remaining()) is None,
            },
    {
        let ghost s = old(reader).remaining();
        let ghost r0 = *reader;
        let headers: Vec<ExportBundleHeader> = read_repeat(reader, 1)?;
        proof {
            lemma_repeat_step(s, 1, record_parser::<ExportBundleHeader>());
            lemma_advance(r0, *reader);
        }
        let ghost r1 = *reader;
        let count = reader.read_i32()?;
        proof {
            lemma_advance(r1, *reader);
            assert(s.subrange(16, 20) =~= rest(s, 16).take(4));
        }
        if count < 0 {
            return Err(Error::invalid_file(String::from_str("Negative internal arc count")));
        }
        proof {
            assert(rest(rest(s, 16), 4) =~= rest(s, 20));
        }
        let arcs: Vec<FInternalArc> = read_repeat(reader, count as u32)?;
        proof {
            assert(models(headers@) =~= headers@);
            assert(models(arcs@) =~= arcs@);
        }
        Ok(IoStoreGraphData { export_bundle_headers: headers, internal_arcs: arcs })
    }
}

impl Record for BulkDataMapEntry {
    type Model = BulkDataMapEntry;

    open spec fn model(v: BulkDataMapEntry) -> BulkDataMapEntry { v }

    open spec fn parse_model(s: Seq<u8>) -> Option<(BulkDataMapEntry, int)> { BulkDataMapEntry::spec_parse(s) }

    open spec fn ser_model(m: BulkDataMapEntry) -> Seq<u8> { m.spec_ser() }

    fn read_from(reader: &mut ByteReader) -> (res: Result<BulkDataMapEntry, Error>) {
        BulkDataMapEntry::read(reader)
    }

    fn write_to(&self, writer: &mut ByteWriter) {
        let _ = self.write(writer);
    }
}

/// What follows a zen package summary, one part after another: the versioning info, where
/// the summary says that it follows; the name batch; and, from the UE5 object version of data
/// resources on, the bulk data map.
pub struct FrontView {
    /// Versioning info
    pub versioning_info: Option<VersioningView>,
    /// Names of the name batch
    pub name_map: Seq<Option<Seq<char>>>,
    /// Bulk data map
    pub bulk_data_map: Option<Seq<BulkDataMapEntry>>,
}

/// The UE5 object version of a package: that of its versioning info, else that of the engine
/// version.
pub open spec fn package_object_version_ue5(vi: Option<VersioningView>, engine_version: EngineVersion) -> i32 {
    match vi {
        Some(v) => v.object_version_ue5,
        None => object_versions(engine_version).1,
    }
}

/// The bulk data map at the start of `s`: its size in bytes as a `u64`, then as many entries
/// of 32 bytes as fit that size, the count taken as an `i32`; a negative count is invalid.
pub open spec fn spec_parse_bulk_data_map(s: Seq<u8>) -> Option<(Seq<BulkDataMapEntry>, int)> {
    match parse_u64(s) {
        Some((size, _)) => {
            let c = (size / 32) as i32;
            if c < 0 {
                None
            } else {
                match parse_repeat(rest(s, 8), c as nat, record_parser::<BulkDataMapEntry>()) {
                    Some((b, k)) => Some((b, 8 + k)),
                    None => None,
                }
            }
        },
        None => None,
    }
}

/// What follows a zen package summary at the start of `s`.
pub open spec fn spec_parse_front(s: Seq<u8>, has_versioning_info: bool, engine_version: EngineVersion)
    -> Option<(FrontView, int)>
{
    let vi: Option<(Option<VersioningView>, int)> = if has_versioning_info {
        match spec_parse_versioning(s) {
            Some((v, k)) => Some((Some(v), k)),
            None => None,
        }
    } else {
        Some((None, 0))
    };
    match vi {
        None => None,
        Some((v, k0)) => match spec_parse_name_batch(rest(s, k0)) {
            None => None,
            Some((names, k1)) => if package_object_version_ue5(v, engine_version) >= DATA_RESOURCES {
                match spec_parse_bulk_data_map(rest(s, k0 + k1)) {
                    Some((b, k2)) => Some((FrontView { versioning_info: v, name_map: names, bulk_data_map: Some(b) }, k0 + k1 + k2)),
                    None => None,
                }
            } else {
                Some((FrontView { versioning_info: v, name_map: names, bulk_data_map: None }, k0 + k1))
            },
        },
    }
}

/// What follows a zen package summary.
pub struct ZenFront {
    /// Versioning info
    pub versioning_info: Option<ZenPackageVersioningInfo>,
    /// Names of the name batch
    pub name_map: Vec<FNameEntrySerialized>,
    /// Bulk data map
    pub bulk_data_map: Option<Vec<BulkDataMapEntry>>,
}

impl View for ZenFront {
    type V = FrontView;

    open spec fn view(&self) -> FrontView {
        FrontView {
            versioning_info: match self.versioning_info { Some(v) => Some(v@), None => None },
            name_map: entry_names(self.name_map@),
            bulk_data_map: match self.bulk_data_map { Some(b) => Some(b@), None => None },
        }
    }
}

/// Read the bulk data map.
fn read_bulk_data_map(reader: &mut ByteReader) -> (res: Result<Vec<BulkDataMapEntry>, Error>)
    ensures
        final(reader).data@ == old(reader).data@,
        match res {
            Ok(b) => spec_parse_bulk_data_map(old(reader).remaining()) == Some((b@, final(reader).pos - old(reader).pos)),
            Err(_) => spec_parse_bulk_data_map(old(reader).remaining()) is None,
        },
        res is Ok ==> old(reader).pos <= final(reader).pos
            && final(reader).pos - old(reader).pos <= old(reader).remaining().len(),
{
    let ghost s = old(reader).remaining();
    let ghost r0 = *reader;
    let size = reader.read_u64()?;
    proof { lemma_advance(r0, *reader); }
    let c = (size / 32) as i32;
    if c < 0 {
        return Err(Error::invalid_file(String::from_str("Negative bulk data count")));
    }
    let ghost r1 = *reader;
    let b: Vec<BulkDataMapEntry> = read_repeat(reader, c as u32)?;
    proof {
        lemma_advance(r1, *reader);
        assert(models(b@) =~= b@);
    }
    Ok(b)
}

/// Read what follows a zen package summary, given whether versioning info follows.
#[verifier::spinoff_prover]
#[verifier::rlimit(60)]
pub fn read_zen_front(reader: &mut ByteReader, has_versioning_info: bool, engine_version: EngineVersion)
    -> (res: Result<ZenFront, Error>)
    ensures
        final(reader).data@ == old(reader).data@,
        match res {
            Ok(f) => spec_parse_front(old(reader).remaining(), has_versioning_info, engine_version)
                == Some((f@, final(reader).pos - old(reader).pos)),
            Err(_) => spec_parse_front(old(reader).remaining(), has_versioning_info, engine_version) is None,
        },
{
    let ghost s = old(reader).remaining();
    let ghost r0 = *reader;
    let versioning_info = if has_versioning_info {
        Some(ZenPackageVersioningInfo::read(reader)?)
    } else {
        None
    };
    proof { lemma_advance(r0, *reader); }
    let ghost r1 = *reader;
    let name_map = read_name_batch(reader)?;
    proof {
        lemma_advance(r1, *reader);
        assert(rest(rest(s, r1.pos - r0.pos), reader.pos - r1.pos) =~= rest(s, reader.pos - r0.pos));
    }
    let ov5 = match &versioning_info {
        Some(v) => v.object_version_ue5,
        None => get_object_versions(engine_version).1,
    };
    let bulk_data_map = if ov5 >= DATA_RESOURCES {
        let ghost r2 = *reader;
        let b = read_bulk_data_map(reader)?;
        proof { lemma_advance(r2, *reader); }
        Some(b)
    } else {
        None
    };
    Ok(ZenFront { versioning_info, name_map, bulk_data_map })
}

/// The number of records of `size` bytes between the offsets `from` and `to`, the
/// difference divided with the remainder dropped toward zero; none where it is negative.
pub open spec fn table_count(from: i32, to: i32, size: int) -> Option<nat> {
    let d = to - from;
    if d <= -size {
        None
    } else if d < 0 {
        Some(0nat)
    } else {
        Some((d / size) as nat)
    }
}

/// The bytes of `d` from the offset `off`, taken as an unsigned 64-bit position.
pub open spec fn bytes_at(d: Seq<u8>, off: i32) -> Seq<u8> {
    rest(d, (off as u64) as int)
}

/// Whether the offset `off` is a position that the reader can take.
pub open spec fn seekable(off: i32) -> bool {
    (off as u64) <= usize::MAX
}

/// What a zen package header holds: its summary, the imported public export hashes, the
/// import map, the export map and the export bundle entries.
pub struct ZenView {
    /// Summary
    pub summary: ZenPackageSummary,
    /// Versioning info, where the summary says that it follows
    pub versioning_info: Option<VersioningView>,
    /// Names of the name batch
    pub name_map: Seq<Option<Seq<char>>>,
    /// Bulk data map, from the UE5 object version of data resources on
    pub bulk_data_map: Option<Seq<BulkDataMapEntry>>,
    /// Imported public export hashes
    pub imported_public_export_hashes: Seq<u64>,
    /// Import map
    pub import_map: Seq<PackageObjectIndex>,
    /// Export map
    pub export_map: Seq<IoStoreExportMapEntry>,
    /// Export bundle entries
    pub export_bundle_entries: Seq<ExportBundleEntry>,
    /// Graph data, where the summary gives its offset
    pub graph_data: Option<GraphView>,
}

/// The zen package header in `d` whose summary starts at `p0`, with the versioning info that
/// follows the summary where it says so, and the graph data at its offset, where the summary
/// gives one (that of a package that imports no package). The summary gives the offsets,
/// from the start of `d`, of four tables, and their lengths by the differences of the offsets:
/// the imported public export hashes (8 bytes each) up to the import map, the import map
/// (8 bytes each) up to the export map, and the export map (72 bytes each) up to the export
/// bundle entries, of which there are two per export.
pub open spec fn spec_parse_zen(d: Seq<u8>, p0: int, dependency_bundles: bool, engine_version: EngineVersion)
    -> Option<ZenView>
{
    match ZenPackageSummary::spec_parse(rest(d, p0), dependency_bundles) {
        None => None,
        Some((sm, _)) => {
            let after = rest(rest(d, p0), ZenPackageSummary::spec_len(dependency_bundles));
            let fr = spec_parse_front(after, sm.has_versioning_info, engine_version);
            let gd: Option<Option<GraphView>> = match sm.graph_data_offset {
                Some(off) => if seekable(off) {
                    match spec_parse_graph(bytes_at(d, off)) {
                        Some(g) => Some(Some(g)),
                        None => None,
                    }
                } else {
                    None
                },
                None => Some(None),
            };
            let hp = sm.imported_public_export_hashes_offset;
            let ip = sm.import_map_offset;
            let ep = sm.export_map_offset;
            let bp = sm.export_bundle_entries_offset;
            match (table_count(hp, ip, 8), table_count(ip, ep, 8), table_count(ep, bp, 72)) {
                (Some(nh), Some(ni), Some(ne)) => if fr is Some && gd is Some && seekable(hp) && seekable(ip) && seekable(ep) && seekable(bp) {
                    match (
                        parse_repeat(bytes_at(d, hp), nh, record_parser::<u64>()),
                        parse_repeat(bytes_at(d, ip), ni, record_parser::<PackageObjectIndex>()),
                        parse_repeat(bytes_at(d, ep), ne, export_entry_parser(engine_version)),
                        parse_repeat(bytes_at(d, bp), 2 * ne, record_parser::<ExportBundleEntry>()),
                    ) {
                        (Some((h, _)), Some((i, _)), Some((e, _)), Some((b, _))) => Some(ZenView {
                            summary: sm,
                            versioning_info: fr.unwrap().0.versioning_info,
                            name_map: fr.unwrap().0.name_map,
                            bulk_data_map: fr.unwrap().0.bulk_data_map,
                            imported_public_export_hashes: h,
                            import_map: i,
                            export_map: e,
                            export_bundle_entries: b,
                            graph_data: gd->0,
                        }),
                        _ => None,
                    }
                } else {
                    None
                },
                _ => None,
            }
        },
    }
}

/// A zen package header: its summary, and the tables that the summary locates.
pub struct ZenPackage {
    /// Summary
    pub summary: ZenPackageSummary,
    /// Versioning info, where the summary says that it follows
    pub versioning_info: Option<ZenPackageVersioningInfo>,
    /// Names of the name batch
    pub name_map: Vec<FNameEntrySerialized>,
    /// Bulk data map, from the UE5 object version of data resources on
    pub bulk_data_map: Option<Vec<BulkDataMapEntry>>,
    /// Imported public export hashes
    pub imported_public_export_hashes: Vec<u64>,
    /// Import map
    pub import_map: Vec<PackageObjectIndex>,
    /// Export map
    pub export_map: Vec<IoStoreExportMapEntry>,
    /// Export bundle entries
    pub export_bundle_entries: Vec<ExportBundleEntry>,
    /// Graph data, where the summary gives its offset
    pub graph_data: Option<IoStoreGraphData>,
}

impl View for ZenPackage {
    type V = ZenView;

    open spec fn view(&self) -> ZenView {
        ZenView {
            summary: self.summary,
            versioning_info: match self.versioning_info { Some(v) => Some(v@), None => None },
            name_map: entry_names(self.name_map@),
            bulk_data_map: match self.bulk_data_map { Some(b) => Some(b@), None => None },
            imported_public_export_hashes: self.imported_public_export_hashes@,
            import_map: self.import_map@,
            export_map: self.export_map@,
            export_bundle_entries: self.export_bundle_entries@,
            graph_data: match self.graph_data { Some(g) => Some(g@), None => None },
        }
    }
}

/// The number of records of `size` bytes between two offsets; an error where it is negative.
fn count_between(from: i32, to: i32, size: u64) -> (r: Result<u32, Error>)
    requires 8 <= size <= 72,
    ensures
        match r {
            Ok(c) => table_count(from, to, size as int) == Some(c as nat) && c <= 0x2000_0000,
            Err(_) => table_count(from, to, size as int) is None,
        },
{
    let d: i64 = to as i64 - from as i64;
    if d <= -(size as i64) {
        return Err(Error::invalid_file(String::from_str("Negative table length")));
    }
    if d < 0 {
        return Ok(0);
    }
    let x: u64 = d as u64;
    assert(x < 0x1_0000_0000u64);
    let c: u64 = x / size;
    assert(c <= 0x2000_0000u64) by (nonlinear_arith)
        requires c == x / size, x < 0x1_0000_0000u64, 8 <= size;
    Ok(c as u32)
}

/// Moves the reader to the offset `off`, taken as an unsigned 64-bit position.
fn seek_to(reader: &mut ByteReader, off: i32) -> (res: Result<(), Error>)
    ensures
        final(reader).data@ == old(reader).data@,
        res is Ok <==> seekable(off),
        res is Ok ==> final(reader).remaining() == bytes_at(old(reader).data@, off),
{
    let r = reader.set_position(off as u64);
    r
}

/// Reads a zen package header: the summary at the reader's position, the versioning info that
/// may follow it, then the tables that the summary locates, each read from its offset, and
/// the graph data of a package that imports no package. `dependency_bundles` says that the engine is UE 5.3
/// or later; `engine_version` decides the layout of the export map entries.
pub fn parse_zen_package(reader: &mut ByteReader, dependency_bundles: bool, engine_version: EngineVersion)
    -> (res: Result<ZenPackage, Error>)
    ensures
        final(reader).data@ == old(reader).data@,
        match res {
            Ok(z) => spec_parse_zen(old(reader).data@, old(reader).pos as int, dependency_bundles, engine_version) == Some(z@),
            Err(_) => spec_parse_zen(old(reader).data@, old(reader).pos as int, dependency_bundles, engine_version) is None,
        },
{
    let ghost d = old(reader).data@;
    let ghost r0 = *reader;
    let summary = ZenPackageSummary::read(reader, dependency_bundles)?;
    proof { lemma_advance(r0, *reader); }
    let front = read_zen_front(reader, summary.has_versioning_info, engine_version)?;
    let ZenFront { versioning_info, name_map, bulk_data_map } = front;
    let hp = summary.imported_public_export_hashes_offset;
    let ip = summary.import_map_offset;
    let ep = summary.export_map_offset;
    let bp = summary.export_bundle_entries_offset;
    let nh = count_between(hp, ip, 8)?;
    let ni = count_between(ip, ep, 8)?;
    let ne = count_between(ep, bp, 72)?;
    seek_to(reader, hp)?;
    let hashes: Vec<u64> = read_repeat(reader, nh)?;
    seek_to(reader, ip)?;
    let imports: Vec<PackageObjectIndex> = read_repeat(reader, ni)?;
    seek_to(reader, ep)?;
    let exports = read_export_map(reader, ne, engine_version)?;
    seek_to(reader, bp)?;
    let bundles: Vec<ExportBundleEntry> = read_repeat(reader, 2 * ne)?;
    let graph_data = match summary.graph_data_offset {
        Some(off) => {
            seek_to(reader, off)?;
            Some(IoStoreGraphData::read(reader)?)
        },
        None => None,
    };
    proof {
        assert(models(hashes@) =~= hashes@);
        assert(models(imports@) =~= imports@);
        assert(models(bundles@) =~= bundles@);
    }
    Ok(ZenPackage {
        summary,
        versioning_info,
        name_map,
        bulk_data_map,
        imported_public_export_hashes: hashes,
        import_map: imports,
        export_map: exports,
        export_bundle_entries: bundles,
        graph_data,
    })
}

} // verus!
