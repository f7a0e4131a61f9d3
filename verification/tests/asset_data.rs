use unreal_asset::archive::ByteReader;
use unreal_asset::asset::asset_data::AssetData;
use unreal_asset::asset::name_map::NameMap;
use unreal_asset::engine_version::EngineVersion;
use unreal_asset::kismet::expression::KismetExpression;
use unreal_asset::kismet::read_ex0::read_ex_jump;
use unreal_asset::kismet::read_ex1::read_ex_int_const;

#[test]
fn asset_data_defaults_to_unversioned_and_unknown() {
    let a = AssetData::default();
    assert!(!a.use_event_driven_loader);
    assert!(a.unversioned);
    assert_eq!(a.engine_version, EngineVersion::UNKNOWN);
    assert_eq!(a.object_version, 0);
    assert_eq!(a.object_version_ue5, 0);
    assert_eq!(a.map_key_override.len(), 10);
    assert_eq!(a.map_value_override.len(), 4);
    assert_eq!(a.array_struct_type_override.len(), 1);
    assert_eq!(a.array_struct_type_override.get_by_key(&"Keys".to_string()).map(|s| s.as_str()), Some("RichCurveKey"));
}

#[test]
fn expression_readers_read_what_follows_the_token() {
    let names = NameMap::new();
    let mut r = ByteReader::new(vec![0xFE, 0xFF, 0xFF, 0xFF, 7]);
    match read_ex_int_const(&mut r, &names, 522).unwrap() {
        KismetExpression::ExIntConst { value } => assert_eq!(value, -2),
        _ => panic!("expected an int constant"),
    }
    assert_eq!(r.position(), 4);
    let mut r = ByteReader::new(vec![0x10, 0, 0, 0]);
    match read_ex_jump(&mut r, &names, 522).unwrap() {
        KismetExpression::ExJump { code_offset } => assert_eq!(code_offset, 16),
        _ => panic!("expected a jump"),
    }
    assert!(read_ex_jump(&mut ByteReader::new(vec![1, 2]), &names, 522).is_err());
}
