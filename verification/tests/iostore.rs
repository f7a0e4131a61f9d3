use unreal_asset::archive::{ByteReader, ByteWriter};
use unreal_asset::error::{Error, IoStoreError};
use unreal_asset::iostore::align::align;
use unreal_asset::iostore::encryption::{decrypt, encrypt};
use unreal_asset::iostore::exports::{EExportCommandType, ExportBundleEntry, ExportBundleHeader, IoStoreExportMapEntry};
use unreal_asset::iostore::flags::{EExportFilterFlags, EIoContainerFlags, EObjectFlags, IoStoreTocEntryMetaFlags};
use unreal_asset::iostore::name::{EMappedNameType, FMappedName};
use unreal_asset::iostore::package_id::PackageId;
use unreal_asset::iostore::toc::chunk::{IoChunkHash, IoChunkId};
use unreal_asset::iostore::toc::header::IoStoreTocHeader;
use unreal_asset::iostore::toc::index::{IoStoreDirectoryIndex, IoStoreDirectoryIndexEntry, IoStoreFileIndexEntry};
use unreal_asset::iostore::toc::resource::IoStoreTocResource;
use unreal_asset::iostore::toc::{
    EIoStoreTocVersion, IoContainerId, IoOffsetAndLength, IoStoreTocCompressedBlockEntry, IoStoreTocEntryMeta,
};
use unreal_asset::iostore::{BulkDataMapEntry, EPackageObjectIndexType, PackageObjectIndex, ScriptObjectEntry};
use unreal_asset::engine_version::EngineVersion;

fn header(version: EIoStoreTocVersion, flags: u8) -> IoStoreTocHeader {
    IoStoreTocHeader {
        version,
        reserved: [0; 3],
        header_size: 144,
        entry_count: 0,
        compressed_block_entry_count: 0,
        compressed_block_entry_size: 12,
        compression_method_name_count: 0,
        compression_method_name_length: 32,
        compression_block_size: 0x10000,
        directory_index_size: 0,
        partition_count: 1,
        container_id: IoContainerId { value: 0x1122334455667788 },
        encryption_key_guid: [7; 16],
        container_flags: EIoContainerFlags::from_bits_retain(flags),
        reserved_0: [0; 3],
        chunk_perfect_hash_seeds_count: 0,
        partition_size: u64::MAX,
        chunks_without_perfect_hash_count: 0,
        reserved_1: [0; 44],
    }
}

fn directory_index() -> IoStoreDirectoryIndex {
    IoStoreDirectoryIndex {
        mount_point: Some("../../../".to_string()),
        directory_entries: vec![IoStoreDirectoryIndexEntry {
            name: 0xffff_ffff,
            first_child_entry: 0xffff_ffff,
            next_sibling_entry: 0xffff_ffff,
            first_file_entry: 0,
        }],
        file_entries: vec![IoStoreFileIndexEntry { name: 0, next_file_entry: 0xffff_ffff, user_data: 0 }],
        string_table: vec![Some("Game.uasset".to_string())],
    }
}

fn resource(version: EIoStoreTocVersion, with_index: bool) -> IoStoreTocResource {
    let ids = vec![IoChunkId::new(1, 0, 2), IoChunkId::new(2, 0, 3)];
    IoStoreTocResource {
        header: header(version, EIoContainerFlags::SIGNED),
        chunk_ids: ids,
        chunk_offsets_lengths: vec![
            IoOffsetAndLength { offset: 0, length: 100 },
            IoOffsetAndLength { offset: 0x10000, length: 0x20 },
        ],
        chunk_perfect_hash_seeds: vec![-2, 0],
        chunks_without_perfect_hash: vec![5],
        compression_blocks: vec![IoStoreTocCompressedBlockEntry {
            offset: 0x1234,
            compressed_size: 0x100,
            decompressed_size: 0x200,
            compression_method_index: 1,
        }],
        compression_methods: vec!["Oodle".to_string()],
        directory_index: if with_index { Some(directory_index()) } else { None },
        chunk_metas: vec![
            IoStoreTocEntryMeta { chunk_hash: IoChunkHash { value: [1; 32] }, flags: IoStoreTocEntryMetaFlags::from_bits_retain(1) },
            IoStoreTocEntryMeta { chunk_hash: IoChunkHash { value: [2; 32] }, flags: IoStoreTocEntryMetaFlags::from_bits_retain(0) },
        ],
    }
}

#[test]
fn align_rounds_up_to_power_of_two() {
    assert_eq!(align(0, 16), 0);
    assert_eq!(align(1, 16), 16);
    assert_eq!(align(16, 16), 16);
    assert_eq!(align(17, 16), 32);
    assert_eq!(align(1000, 1024), 1024);
}

#[test]
fn aes_encrypts_the_fips_197_vector() {
    let mut key = [0u8; 32];
    for i in 0..32 {
        key[i] = i as u8;
    }
    let mut data = vec![0x00, 0x11, 0x22, 0x33, 0x44, 0x55, 0x66, 0x77, 0x88, 0x99, 0xaa, 0xbb, 0xcc, 0xdd, 0xee, 0xff];
    let plain = data.clone();
    encrypt(&key, &mut data);
    assert_eq!(
        data,
        vec![0x8e, 0xa2, 0xb7, 0xca, 0x51, 0x67, 0x45, 0xbf, 0xea, 0xfc, 0x49, 0x90, 0x4b, 0x49, 0x60, 0x89]
    );
    decrypt(&key, &mut data);
    assert_eq!(data, plain);
}

#[test]
fn chunk_id_hash_values() {
    assert_eq!(IoChunkId::new(0, 0, 10).hash(0).unwrap(), 0x5467b0da1d10649f);
    assert_eq!(IoChunkId::new(0x1234, 1, 2).hash(0).unwrap(), 0x440d144a7ca6b9f0);
    assert_eq!(IoChunkId::new(0x1234, 1, 2).hash(7).unwrap(), 0x3f615a3112b560d2);
}

#[test]
fn chunk_id_roundtrip() {
    let id = IoChunkId::new(0x0102030405060708, 0x0a0b, 9);
    let mut w = ByteWriter::new();
    id.write(&mut w).unwrap();
    assert_eq!(w.data, vec![8, 7, 6, 5, 4, 3, 2, 1, 0x0a, 0x0b, 0, 9]);
    let mut r = ByteReader::new(w.data);
    assert_eq!(IoChunkId::read(&mut r).unwrap(), id);
}

#[test]
fn offset_and_length_is_forty_bit_big_endian() {
    let v = IoOffsetAndLength { offset: 0x0102030405, length: 0x0a0b0c0d0e };
    let mut w = ByteWriter::new();
    v.write(&mut w).unwrap();
    assert_eq!(w.data, vec![1, 2, 3, 4, 5, 0x0a, 0x0b, 0x0c, 0x0d, 0x0e]);
    let mut r = ByteReader::new(w.data);
    assert_eq!(IoOffsetAndLength::read(&mut r).unwrap(), v);
}

#[test]
fn header_roundtrip_and_errors() {
    let h = header(EIoStoreTocVersion::PerfectHashWithOverflow, 0);
    let mut w = ByteWriter::new();
    h.write(&mut w).unwrap();
    assert_eq!(w.data.len(), 144);
    let mut r = ByteReader::new(w.data.clone());
    assert_eq!(IoStoreTocHeader::read(&mut r).unwrap(), h);

    let mut bad = w.data.clone();
    bad[0] = 0;
    match IoStoreTocHeader::read(&mut ByteReader::new(bad)) {
        Err(Error::IoStore(IoStoreError::InvalidTocMagic(_))) => {}
        other => panic!("unexpected {:?}", other),
    }
    let mut bad = w.data.clone();
    bad[20] = 100;
    match IoStoreTocHeader::read(&mut ByteReader::new(bad)) {
        Err(Error::IoStore(IoStoreError::InvalidTocHeaderSize(144, 100))) => {}
        other => panic!("unexpected {:?}", other),
    }
}

#[test]
fn resource_roundtrip_with_encrypted_directory_index() {
    let key = [0x42u8; 32];
    let res = resource(EIoStoreTocVersion::PerfectHashWithOverflow, true);
    let mut w = ByteWriter::new();
    res.write(&mut w, Some(key)).unwrap();
    let mut r = ByteReader::new(w.data.clone());
    let back = IoStoreTocResource::read(&mut r, Some(key)).unwrap();
    assert_eq!(r.position() as usize, w.data.len());
    assert_eq!(back.chunk_ids, res.chunk_ids);
    assert_eq!(back.chunk_offsets_lengths, res.chunk_offsets_lengths);
    assert_eq!(back.chunk_perfect_hash_seeds, res.chunk_perfect_hash_seeds);
    assert_eq!(back.chunks_without_perfect_hash, res.chunks_without_perfect_hash);
    assert_eq!(back.compression_blocks, res.compression_blocks);
    assert_eq!(back.compression_methods, res.compression_methods);
    assert_eq!(back.directory_index, res.directory_index);
    assert_eq!(back.chunk_metas, res.chunk_metas);
    assert_eq!(back.header.entry_count, 2);
    assert!(back.header.container_flags.contains(EIoContainerFlags::ENCRYPTED));
    assert!(back.header.container_flags.contains(EIoContainerFlags::INDEXED));
    assert!(!back.header.container_flags.contains(EIoContainerFlags::SIGNED));
    assert_eq!(back.header.directory_index_size % 16, 0);

    match IoStoreTocResource::read(&mut ByteReader::new(w.data.clone()), None) {
        Err(Error::IoStore(IoStoreError::NoEncryptionKey)) => {}
        other => panic!("unexpected {:?}", other.map(|_| ())),
    }
}

#[test]
fn resource_roundtrip_without_directory_index() {
    let res = resource(EIoStoreTocVersion::PerfectHash, false);
    let mut w = ByteWriter::new();
    res.write(&mut w, None).unwrap();
    let back = IoStoreTocResource::read(&mut ByteReader::new(w.data), None).unwrap();
    assert_eq!(back.chunk_ids, res.chunk_ids);
    assert_eq!(back.chunk_perfect_hash_seeds, res.chunk_perfect_hash_seeds);
    assert!(back.chunks_without_perfect_hash.is_empty());
    assert_eq!(back.chunk_metas, res.chunk_metas);
    assert_eq!(back.directory_index, None);
}

#[test]
fn chunk_offset_lookup() {
    let res = resource(EIoStoreTocVersion::PerfectHashWithOverflow, false);
    // both ids hash to seed slot 0, whose seed -2 names entry 1 directly
    assert_eq!(
        res.get_chunk_offset(&IoChunkId::new(2, 0, 3)).unwrap(),
        Some(IoOffsetAndLength { offset: 0x10000, length: 0x20 })
    );
    // entry 1 holds another id, so the lookup falls back to a scan
    assert_eq!(
        res.get_chunk_offset(&IoChunkId::new(1, 0, 2)).unwrap(),
        Some(IoOffsetAndLength { offset: 0, length: 100 })
    );
    let mut zero_seeds = resource(EIoStoreTocVersion::PerfectHashWithOverflow, false);
    zero_seeds.chunk_perfect_hash_seeds = vec![0, 0];
    assert_eq!(zero_seeds.get_chunk_offset(&IoChunkId::new(2, 0, 3)).unwrap(), None);
}

#[test]
fn package_object_index_packs_type_in_top_bits() {
    let i = PackageObjectIndex::new(5, EPackageObjectIndexType::ScriptImport);
    let mut w = ByteWriter::new();
    i.write(&mut w).unwrap();
    assert_eq!(w.data, vec![5, 0, 0, 0, 0, 0, 0, 0x40]);
    assert_eq!(PackageObjectIndex::read(&mut ByteReader::new(w.data)).unwrap(), i);
    assert_eq!(PackageObjectIndex::unpack(u64::MAX), PackageObjectIndex::new(0x3fff_ffff_ffff_ffff, EPackageObjectIndexType::Null));
    assert!(PackageObjectIndex::unpack(u64::MAX).is_null());
    assert!(i.is_script_import() && i.is_import() && !i.is_export());
    assert_eq!(PackageObjectIndex::serialized_size(), 8);
}

#[test]
fn mapped_name_roundtrip_and_invalid_type() {
    let n = FMappedName::new(7, 3, EMappedNameType::Global);
    let mut w = ByteWriter::new();
    n.write(&mut w).unwrap();
    assert_eq!(w.data, vec![7, 0, 0, 0x80, 3, 0, 0, 0]);
    assert_eq!(FMappedName::read(&mut ByteReader::new(w.data)).unwrap(), n);
    match FMappedName::read(&mut ByteReader::new(vec![0, 0, 0, 0xc0, 0, 0, 0, 0])) {
        Err(Error::InvalidEnumValue(_)) => {}
        other => panic!("unexpected {:?}", other),
    }
}

#[test]
fn script_object_entry_and_bulk_data_roundtrip() {
    let e = ScriptObjectEntry::new(
        FMappedName::new(1, 0, EMappedNameType::Package),
        PackageObjectIndex::new(2, EPackageObjectIndexType::ScriptImport),
        PackageObjectIndex::new(3, EPackageObjectIndexType::Null),
        PackageObjectIndex::new(4, EPackageObjectIndexType::Export),
    );
    let mut w = ByteWriter::new();
    e.write(&mut w).unwrap();
    assert_eq!(w.data.len(), 32);
    assert_eq!(ScriptObjectEntry::read(&mut ByteReader::new(w.data)).unwrap(), e);

    let b = BulkDataMapEntry { serial_offset: 1, dup_serial_offset: 2, serial_size: 3, flags: 4, padding: 5 };
    let mut w = ByteWriter::new();
    b.write(&mut w).unwrap();
    assert_eq!(BulkDataMapEntry::read(&mut ByteReader::new(w.data)).unwrap(), b);
}

#[test]
fn export_map_entry_depends_on_engine_version() {
    let mut e = IoStoreExportMapEntry {
        cooked_serial_offset: 10,
        cooked_serial_size: 20,
        object_name: FMappedName::new(1, 0, EMappedNameType::Package),
        outer_index: PackageObjectIndex::new(0, EPackageObjectIndexType::Null),
        class_index: PackageObjectIndex::new(1, EPackageObjectIndexType::ScriptImport),
        super_index: PackageObjectIndex::new(0, EPackageObjectIndexType::Null),
        template_index: PackageObjectIndex::new(2, EPackageObjectIndexType::ScriptImport),
        global_import_index: None,
        public_export_hash: Some(0xdead_beef),
        object_flags: EObjectFlags::from_bits_retain(0x10),
        filter_flags: EExportFilterFlags::from_bits_retain(EExportFilterFlags::NOT_FOR_CLIENT),
        padding: [0; 3],
    };
    let mut w = ByteWriter::new();
    e.write(&mut w, EngineVersion::VER_UE5_0).unwrap();
    assert_eq!(w.data.len() as u64, IoStoreExportMapEntry::serialized_size());
    assert_eq!(IoStoreExportMapEntry::read(&mut ByteReader::new(w.data), EngineVersion::VER_UE5_0).unwrap(), e);

    let mut w = ByteWriter::new();
    match e.write(&mut w, EngineVersion::VER_UE4_27) {
        Err(Error::NoData(_)) => {}
        other => panic!("unexpected {:?}", other),
    }
    assert_eq!(w.data.len(), 56);

    e.public_export_hash = None;
    e.global_import_index = Some(PackageObjectIndex::new(9, EPackageObjectIndexType::PackageImport));
    let mut w = ByteWriter::new();
    e.write(&mut w, EngineVersion::VER_UE4_27).unwrap();
    assert_eq!(IoStoreExportMapEntry::read(&mut ByteReader::new(w.data), EngineVersion::VER_UE4_27).unwrap(), e);
}

#[test]
fn export_bundles_roundtrip() {
    let e = ExportBundleEntry { local_export_index: 3, command_type: EExportCommandType::Serialize };
    let mut w = ByteWriter::new();
    e.write(&mut w).unwrap();
    assert_eq!(w.data, vec![3, 0, 0, 0, 1, 0, 0, 0]);
    assert_eq!(ExportBundleEntry::read(&mut ByteReader::new(w.data)).unwrap(), e);
    assert!(ExportBundleEntry::read(&mut ByteReader::new(vec![0, 0, 0, 0, 3, 0, 0, 0])).is_err());

    let h = ExportBundleHeader { serial_offset: 0x100, first_entry_index: 1, entry_count: 2 };
    let mut w = ByteWriter::new();
    h.write(&mut w).unwrap();
    assert_eq!(ExportBundleHeader::read(&mut ByteReader::new(w.data)).unwrap(), h);

    let p = PackageId { id: 0x0123_4567_89ab_cdef };
    let mut w = ByteWriter::new();
    p.write(&mut w).unwrap();
    assert_eq!(PackageId::read(&mut ByteReader::new(w.data)).unwrap(), p);
}

fn sample_directory_index() -> IoStoreDirectoryIndex {
    let none = IoStoreDirectoryIndex::INVALID_INDEX;
    IoStoreDirectoryIndex {
        mount_point: Some("../../../".to_string()),
        directory_entries: vec![
            IoStoreDirectoryIndexEntry { name: 0, first_child_entry: 1, next_sibling_entry: none, first_file_entry: 0 },
            IoStoreDirectoryIndexEntry { name: 1, first_child_entry: none, next_sibling_entry: none, first_file_entry: 1 },
        ],
        file_entries: vec![
            IoStoreFileIndexEntry { name: 2, next_file_entry: 2, user_data: 7 },
            IoStoreFileIndexEntry { name: 3, next_file_entry: none, user_data: 9 },
            IoStoreFileIndexEntry { name: 4, next_file_entry: none, user_data: 8 },
        ],
        string_table: vec![None, Some("b".to_string()), Some("a".to_string()), Some("c".to_string()), Some("d".to_string())],
    }
}

#[test]
fn directory_index_walk_lists_files_then_subdirectories() {
    let index = sample_directory_index();
    let walked = index.iter(IoStoreDirectoryIndex::ROOT_INDEX).unwrap();
    assert_eq!(
        walked,
        vec![(7, "/a".to_string()), (8, "/d".to_string()), (9, "/b/c".to_string())]
    );
    assert_eq!(index.iter(1).unwrap(), vec![(9, "/c".to_string())]);
}

#[test]
fn directory_index_walk_rejects_bad_links() {
    let mut index = sample_directory_index();
    assert!(index.iter(5).is_none());
    index.directory_entries[1].first_child_entry = 0;
    assert!(index.iter(IoStoreDirectoryIndex::ROOT_INDEX).is_none());
    let mut index = sample_directory_index();
    index.file_entries[1].name = 40;
    assert!(index.iter(IoStoreDirectoryIndex::ROOT_INDEX).is_none());
}
