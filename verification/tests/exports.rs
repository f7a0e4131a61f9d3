use unreal_asset::archive::{ArchiveType, ByteReader, ByteWriter};
use unreal_asset::engine_version::{OPTIONAL_RESOURCES, TRACK_OBJECT_EXPORT_IS_INHERITED};
use unreal_asset::error::Error;
use unreal_asset::exports::base_export::BaseExport;
use unreal_asset::iostore::flags::EObjectFlags;
use unreal_asset::types::{NameIndex, PackageIndex};

fn export() -> BaseExport {
    let mut e = BaseExport::default();
    e.class_index = PackageIndex::new(-1);
    e.super_index = PackageIndex::new(0);
    e.template_index = PackageIndex::new(-2);
    e.outer_index = PackageIndex::new(0);
    e.object_name = NameIndex { index: 3, number: 0 };
    e.object_flags = EObjectFlags::from_bits_retain(0x1 | 0x8);
    e.forced_export = false;
    e.not_for_client = true;
    e.package_guid = [5; 16];
    e.package_flags = 0x40;
    e.is_asset = true;
    e.create_before_create_dependencies = vec![PackageIndex::new(-1)];
    e
}

#[test]
fn export_map_entry_sizes() {
    assert_eq!(BaseExport::get_export_map_entry_size(522, 0), 104);
    assert_eq!(BaseExport::get_export_map_entry_size(504, 0), 72);
    assert_eq!(BaseExport::get_export_map_entry_size(522, TRACK_OBJECT_EXPORT_IS_INHERITED), 112);
    assert_eq!(BaseExport::get_export_map_entry_size(300, 0), 64);
}

#[test]
fn export_map_entry_roundtrip() {
    let e = export();
    let mut w = ByteWriter::new();
    e.write_export_map_entry(&mut w, 522, OPTIONAL_RESOURCES, 0x1234, 0x5678, 9).unwrap();
    assert_eq!(w.data.len() as u64, BaseExport::get_export_map_entry_size(522, OPTIONAL_RESOURCES));
    let back = BaseExport::read_export_map_entry(&mut ByteReader::new(w.data), 522, OPTIONAL_RESOURCES, 10).unwrap();
    assert_eq!(back.class_index, e.class_index);
    assert_eq!(back.template_index, e.template_index);
    assert_eq!(back.object_name, e.object_name);
    assert_eq!(back.object_flags, e.object_flags);
    assert_eq!(back.serial_size, 0x1234);
    assert_eq!(back.serial_offset, 0x5678);
    assert_eq!(back.not_for_client, true);
    assert_eq!(back.package_guid, e.package_guid);
    assert_eq!(back.package_flags, 0x40);
    assert_eq!(back.is_asset, true);
    assert_eq!(back.first_export_dependency_offset, 9);
    assert_eq!(back.create_before_create_dependencies_size, 1);
    assert!(back.create_before_create_dependencies.is_empty());
}

#[test]
fn export_map_entry_errors() {
    let e = export();
    let mut w = ByteWriter::new();
    e.write_export_map_entry(&mut w, 522, 0, 0, 0, 0).unwrap();
    match BaseExport::read_export_map_entry(&mut ByteReader::new(w.data.clone()), 522, 0, 3) {
        Err(Error::FName(3, 3)) => {}
        other => panic!("unexpected {:?}", other.map(|_| ())),
    }
    let mut bad = w.data.clone();
    bad[27] = 0xff;
    match BaseExport::read_export_map_entry(&mut ByteReader::new(bad), 522, 0, 10) {
        Err(Error::InvalidFile(_)) => {}
        other => panic!("unexpected {:?}", other.map(|_| ())),
    }
    let short = w.data[..50].to_vec();
    assert!(BaseExport::read_export_map_entry(&mut ByteReader::new(short), 522, 0, 10).is_err());
}

#[test]
fn export_map_entry_needs_a_uasset_archive() {
    let e = export();
    let mut w = ByteWriter::with_archive_type(ArchiveType::Zen);
    match e.write_export_map_entry(&mut w, 522, 0, 1, 2, 3) {
        Err(Error::ArchiveTypeMismatch(expected, found)) => {
            assert_eq!(expected, vec![ArchiveType::UAsset, ArchiveType::Zen]);
            assert_eq!(found, ArchiveType::Zen);
        }
        _ => panic!("expected an archive type mismatch"),
    }
    assert!(w.data.is_empty());
    let mut ok = ByteWriter::new();
    e.write_export_map_entry(&mut ok, 522, 0, 1, 2, 3).unwrap();
    let mut r = ByteReader::with_archive_type(ok.data, ArchiveType::Zen);
    assert!(matches!(
        BaseExport::read_export_map_entry(&mut r, 522, 0, 10),
        Err(Error::ArchiveTypeMismatch(_, ArchiveType::Zen))
    ));
    assert_eq!(r.position(), 0);
}

#[test]
fn class_type_for_ancestry_takes_import_name_or_parent_class() {
    let imports = vec![NameIndex { index: 4, number: 0 }, NameIndex { index: 7, number: 1 }];
    let mut e = BaseExport::default();
    e.class_index = PackageIndex::new(-2);
    assert_eq!(e.get_class_type_for_ancestry(&imports, None), Some(NameIndex { index: 7, number: 1 }));
    e.class_index = PackageIndex::new(-3);
    assert_eq!(e.get_class_type_for_ancestry(&imports, None), None);
    e.class_index = PackageIndex::new(1);
    let parent = Some(NameIndex { index: 2, number: 0 });
    assert_eq!(e.get_class_type_for_ancestry(&imports, parent), parent);
}
