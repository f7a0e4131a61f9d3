use unreal_asset::archive::{ByteReader, ByteWriter};
use unreal_asset::custom_version::{
    CustomVersion, CustomVersionTrait, FAssetRegistryVersionType, FCoreObjectVersion, FEditorObjectVersion,
    FSequencerObjectVersion,
};
use unreal_asset::engine_version::{
    get_object_versions, get_possible_versions, guess_engine_version, EngineVersion, LARGE_WORLD_COORDINATES,
    VER_UE4_APEX_CLOTH_TESSELLATION, VER_UE4_CORRECT_LICENSEE_FLAG, VER_UE4_RENAME_CAMERA_COMPONENT_CONTROL_ROTATION,
};
use unreal_asset::types::new_guid;

#[test]
fn object_versions_of_engine_versions() {
    assert_eq!(get_object_versions(EngineVersion::UNKNOWN), (0, 0));
    assert_eq!(get_object_versions(EngineVersion::VER_UE4_27), (522, 0));
    assert_eq!(get_object_versions(EngineVersion::VER_UE5_0), (522, 0));
    assert_eq!(get_object_versions(EngineVersion::VER_UE4_10), (482, 0));
    assert_eq!(get_object_versions(EngineVersion::VER_UE4_5), (401, 1004));
    assert_eq!(get_object_versions(EngineVersion::VER_UE4_AUTOMATIC_VERSION), (0, 0));
}

#[test]
fn possible_versions_take_the_first_match() {
    assert_eq!(get_possible_versions(VER_UE4_APEX_CLOTH_TESSELLATION, 0), vec![EngineVersion::VER_UE4_9]);
    assert_eq!(get_possible_versions(VER_UE4_CORRECT_LICENSEE_FLAG, 0), vec![EngineVersion::VER_UE4_27]);
    assert_eq!(get_possible_versions(12345, 0), Vec::<EngineVersion>::new());
    assert_eq!(
        get_possible_versions(VER_UE4_RENAME_CAMERA_COMPONENT_CONTROL_ROTATION, LARGE_WORLD_COORDINATES),
        vec![EngineVersion::VER_UE4_5, EngineVersion::VER_UE4_5]
    );
}

#[test]
fn guess_engine_version_cases() {
    assert_eq!(guess_engine_version(0, 0, &[]), EngineVersion::UNKNOWN);
    assert_eq!(guess_engine_version(522, 0, &[]), EngineVersion::VER_UE4_27);
    assert_eq!(guess_engine_version(522, LARGE_WORLD_COORDINATES, &[]), EngineVersion::VER_UE4_5);
    // a custom version introduced in 4.25 rules out 4.5 and leaves 4.27
    let core = CustomVersion::from_version(FCoreObjectVersion::FProperties);
    assert_eq!(guess_engine_version(522, LARGE_WORLD_COORDINATES, &[core]), EngineVersion::VER_UE4_27);
    // bounds that rule out both possible versions fall back to the first
    let old = CustomVersion::from_version(FCoreObjectVersion::SkeletalMaterialEditorDataStripping);
    assert_eq!(guess_engine_version(522, LARGE_WORLD_COORDINATES, &[old]), EngineVersion::VER_UE4_5);
}

#[test]
fn custom_version_from_registry() {
    let guid = new_guid(0x375EC13C, 0x06E448FB, 0xB50084F0, 0x262A717E);
    let v = CustomVersion::new(guid, 3);
    assert_eq!(v.friendly_name.as_deref(), Some("FCoreObjectVersion"));
    assert_eq!(v.version, 3);
    assert_eq!(v.version_mappings, FCoreObjectVersion::version_mappings());
    assert_eq!(v.get_engine_version_from_version_number(3), Some(EngineVersion::VER_UE4_22));
    assert_eq!(v.get_engine_version_from_version_number(99), None);
    assert_eq!(v.get_version_number_from_engine_version(EngineVersion::VER_UE4_25), Some(4));
    assert_eq!(v.get_version_number_from_engine_version(EngineVersion::VER_UE4_24), Some(3));

    let unknown = CustomVersion::new([9; 16], 1);
    assert_eq!(unknown.friendly_name, None);
    assert!(unknown.version_mappings.is_empty());

    let named = CustomVersion::new(new_guid(0xE1C64328, 0xA22C4D53, 0xA36C8E86, 0x6417BD8C), 0);
    assert_eq!(named.friendly_name.as_deref(), Some("FBuildObjectVersion"));
    assert!(named.version_mappings.is_empty());
}

#[test]
fn custom_version_roundtrip() {
    let v = CustomVersion::from_version(FEditorObjectVersion::GatheredTextProcessVersionFlagging);
    let mut w = ByteWriter::new();
    v.write(&mut w).unwrap();
    assert_eq!(w.data.len(), 20);
    let back = CustomVersion::read(&mut ByteReader::new(w.data)).unwrap();
    assert_eq!(back.guid, v.guid);
    assert_eq!(back.version, v.version);
    assert_eq!(back.friendly_name, v.friendly_name);
    assert_eq!(back.version_mappings, v.version_mappings);
}

#[test]
fn default_container_of_an_engine_version() {
    let c = CustomVersion::get_default_custom_version_container(EngineVersion::VER_UE4_27);
    let names: Vec<String> = c.iter().map(|v| v.friendly_name.clone().unwrap()).collect();
    assert_eq!(
        names,
        vec![
            "FCoreObjectVersion",
            "FEditorObjectVersion",
            "FFrameworkObjectVersion",
            "FFortniteMainBranchObjectVersion",
            "FReleaseObjectVersion",
            "FSequencerObjectVersion",
        ]
    );
    let seq = c.iter().find(|v| v.friendly_name.as_deref() == Some("FSequencerObjectVersion")).unwrap();
    assert_eq!(seq.version, 13);
    assert_eq!(seq.guid, FSequencerObjectVersion::guid());
}

#[test]
fn asset_registry_version_roundtrip() {
    let mut w = ByteWriter::new();
    FAssetRegistryVersionType::FixedTags.write(&mut w).unwrap();
    assert_eq!(FAssetRegistryVersionType::new(&mut ByteReader::new(w.data)).unwrap(), FAssetRegistryVersionType::FixedTags);
    let other = vec![0u8; 16];
    assert_eq!(FAssetRegistryVersionType::new(&mut ByteReader::new(other)).unwrap(), FAssetRegistryVersionType::LatestVersion);
    assert_eq!(FAssetRegistryVersionType::FixedTags.to_string(), "FixedTags");
}
