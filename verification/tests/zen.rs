use unreal_asset::archive::{ByteReader, ByteWriter};
use unreal_asset::engine_version::EngineVersion;
use unreal_asset::error::Error;
use unreal_asset::iostore::exports::EExportCommandType;
use unreal_asset::iostore::name::EMappedNameType;
use unreal_asset::iostore::zen::{parse_zen_package, ZenPackageSummary, ZenPackageVersioningInfo};
use unreal_asset::version_registry::CustomVersion;
use unreal_asset::iostore::PackageObjectIndex;

fn le32(v: &mut Vec<u8>, x: u32) {
    v.extend_from_slice(&x.to_le_bytes());
}

/// A summary, maybe versioning info, an empty name batch, then one hash, one import, one
/// export, its two bundle entries and the graph data.
fn package(has_versioning: bool, versioning: &[u8]) -> Vec<u8> {
    package_with_names(has_versioning, versioning, &[0, 0, 0, 0])
}

/// As `package`, with the name batch `names`.
fn package_with_names(has_versioning: bool, versioning: &[u8], names: &[u8]) -> Vec<u8> {
    let base = 44 + versioning.len() as u32 + names.len() as u32;
    let mut v = Vec::new();
    le32(&mut v, if has_versioning { 1 } else { 0 });
    le32(&mut v, 100);
    le32(&mut v, 5);
    le32(&mut v, 0);
    le32(&mut v, 0x8000_0000);
    le32(&mut v, 0);
    le32(&mut v, base);
    le32(&mut v, base + 8);
    le32(&mut v, base + 16);
    le32(&mut v, base + 16 + 72);
    le32(&mut v, base + 16 + 72 + 16);
    v.extend_from_slice(versioning);
    v.extend_from_slice(names);
    v.extend_from_slice(&0x1122u64.to_le_bytes());
    v.extend_from_slice(&7u64.to_le_bytes());
    let mut export = vec![0u8; 72];
    export[0] = 3;
    v.extend_from_slice(&export);
    le32(&mut v, 0);
    le32(&mut v, 0);
    le32(&mut v, 0);
    le32(&mut v, 1);
    // graph data: one export bundle header, then one internal arc
    v.extend_from_slice(&64u64.to_le_bytes());
    le32(&mut v, 0);
    le32(&mut v, 2);
    le32(&mut v, 1);
    le32(&mut v, 0);
    le32(&mut v, 1);
    v
}

#[test]
fn zen_summary_reads_its_fields() {
    let bytes = package(false, &[]);
    let mut reader = ByteReader::new(bytes);
    let s = ZenPackageSummary::read(&mut reader, false).unwrap();
    assert!(!s.has_versioning_info);
    assert_eq!(s.header_size, 100);
    assert_eq!(s.name.index, 5);
    assert_eq!(s.name.ty, EMappedNameType::Package);
    assert_eq!(s.package_flags, 0x8000_0000);
    assert_eq!(s.imported_public_export_hashes_offset, 48);
    assert_eq!(s.graph_data_offset, Some(48 + 16 + 72 + 16));
    assert_eq!(s.dependency_bundle_headers_offset, None);
    assert_eq!(reader.position(), 44);
}

#[test]
fn zen_package_reads_the_tables_at_their_offsets() {
    let mut reader = ByteReader::new(package(false, &[]));
    let z = parse_zen_package(&mut reader, false, EngineVersion::VER_UE5_0).unwrap();
    assert!(z.versioning_info.is_none());
    assert!(z.name_map.is_empty());
    assert!(z.bulk_data_map.is_none());
    assert_eq!(z.imported_public_export_hashes, vec![0x1122]);
    assert_eq!(z.import_map, vec![PackageObjectIndex::unpack(7)]);
    assert_eq!(z.export_map.len(), 1);
    assert_eq!(z.export_map[0].cooked_serial_offset, 3);
    assert_eq!(z.export_map[0].public_export_hash, Some(0));
    assert_eq!(z.export_bundle_entries.len(), 2);
    assert_eq!(z.export_bundle_entries[1].command_type, EExportCommandType::Serialize);
    let g = z.graph_data.unwrap();
    assert_eq!(g.export_bundle_headers.len(), 1);
    assert_eq!(g.export_bundle_headers[0].serial_offset, 64);
    assert_eq!(g.export_bundle_headers[0].entry_count, 2);
    assert_eq!(g.internal_arcs.len(), 1);
    assert_eq!(g.internal_arcs[0].from, 0);
    assert_eq!(g.internal_arcs[0].to, 1);
}

#[test]
fn zen_package_reads_versioning_info() {
    let mut versioning = Vec::new();
    le32(&mut versioning, 2);
    le32(&mut versioning, 522);
    le32(&mut versioning, 1004);
    le32(&mut versioning, 0);
    le32(&mut versioning, 1);
    versioning.extend_from_slice(&[9u8; 16]);
    le32(&mut versioning, 4);
    let mut reader = ByteReader::new(package(true, &versioning));
    let z = parse_zen_package(&mut reader, false, EngineVersion::VER_UE5_0).unwrap();
    let info = z.versioning_info.unwrap();
    assert_eq!(info.zen_version, 2);
    assert_eq!(info.object_version, 522);
    assert_eq!(info.object_version_ue5, 1004);
    assert_eq!(info.custom_versions.len(), 1);
    assert_eq!(info.custom_versions[0].guid, [9u8; 16]);
    assert_eq!(info.custom_versions[0].version, 4);
    assert_eq!(z.export_map.len(), 1);
}

#[test]
fn zen_package_with_offsets_out_of_order_fails() {
    let mut bytes = package(false, &[]);
    // the import map offset lies 8 bytes before the hashes
    bytes[28..32].copy_from_slice(&40u32.to_le_bytes());
    let mut reader = ByteReader::new(bytes);
    let res = parse_zen_package(&mut reader, false, EngineVersion::VER_UE5_0);
    assert!(matches!(res, Err(Error::InvalidFile(_))));
}

#[test]
fn zen_package_cut_short_fails() {
    let bytes = package(false, &[]);
    let mut reader = ByteReader::new(bytes[..100].to_vec());
    assert!(parse_zen_package(&mut reader, false, EngineVersion::VER_UE5_0).is_err());
}

#[test]
fn zen_summary_reads_back_its_write() {
    let bytes = package(true, &[]);
    let s = ZenPackageSummary::read(&mut ByteReader::new(bytes.clone()), false).unwrap();
    let mut w = ByteWriter::new();
    s.write(&mut w, false).unwrap();
    assert_eq!(w.data, bytes[..44].to_vec());
    let back = ZenPackageSummary::read(&mut ByteReader::new(w.data), false).unwrap();
    assert_eq!(back, s);
}

#[test]
fn zen_summary_write_needs_the_offsets_of_the_engine_version() {
    let s = ZenPackageSummary::read(&mut ByteReader::new(package(false, &[])), false).unwrap();
    let mut w = ByteWriter::new();
    match s.write(&mut w, true) {
        Err(Error::NoData(m)) => assert_eq!(m, "engine_version >= 5.3 but dependency_bundle_headers_offset is None"),
        _ => panic!("expected missing data"),
    }
    assert_eq!(w.data.len(), 40);
}

#[test]
fn zen_versioning_info_reads_back_its_write() {
    let info = ZenPackageVersioningInfo {
        zen_version: 2,
        object_version: 522,
        object_version_ue5: 1009,
        file_licensee_version: 7,
        custom_versions: vec![CustomVersion::new([3u8; 16], 11), CustomVersion::new([4u8; 16], -1)],
    };
    let mut w = ByteWriter::new();
    info.write(&mut w).unwrap();
    assert_eq!(w.data.len(), 20 + 2 * 20);
    let mut r = ByteReader::new(w.data);
    let back = ZenPackageVersioningInfo::read(&mut r).unwrap();
    assert_eq!(back.zen_version, 2);
    assert_eq!(back.object_version_ue5, 1009);
    assert_eq!(back.file_licensee_version, 7);
    assert_eq!(back.custom_versions.len(), 2);
    assert_eq!(back.custom_versions[1].guid, [4u8; 16]);
    assert_eq!(back.custom_versions[1].version, -1);
    assert_eq!(r.position(), 60);
}

#[test]
fn zen_package_reads_its_name_batch() {
    let mut names = Vec::new();
    le32(&mut names, 1);
    le32(&mut names, 3);
    names.extend_from_slice(&0xC164_0000u64.to_le_bytes());
    names.extend_from_slice(&99u64.to_le_bytes());
    names.extend_from_slice(&[0x00, 0x03]);
    names.extend_from_slice(b"Foo");
    let mut reader = ByteReader::new(package_with_names(false, &[], &names));
    let z = parse_zen_package(&mut reader, false, EngineVersion::VER_UE5_0).unwrap();
    assert_eq!(z.name_map.len(), 1);
    assert_eq!(z.name_map[0].name.as_deref(), Some("Foo"));
    assert_eq!(z.export_map.len(), 1);
}

#[test]
fn zen_package_reads_the_bulk_data_map_of_data_resource_versions() {
    let mut versioning = Vec::new();
    le32(&mut versioning, 2);
    le32(&mut versioning, 522);
    le32(&mut versioning, 1009);
    le32(&mut versioning, 0);
    le32(&mut versioning, 0);
    let mut front = vec![0u8, 0, 0, 0];
    front.extend_from_slice(&32u64.to_le_bytes());
    front.extend_from_slice(&1u64.to_le_bytes());
    front.extend_from_slice(&2u64.to_le_bytes());
    front.extend_from_slice(&3u64.to_le_bytes());
    le32(&mut front, 4);
    le32(&mut front, 0);
    let mut reader = ByteReader::new(package_with_names(true, &versioning, &front));
    let z = parse_zen_package(&mut reader, false, EngineVersion::VER_UE5_0).unwrap();
    let b = z.bulk_data_map.unwrap();
    assert_eq!(b.len(), 1);
    assert_eq!(b[0].serial_offset, 1);
    assert_eq!(b[0].serial_size, 3);
    assert_eq!(b[0].flags, 4);
}
