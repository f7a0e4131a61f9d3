use unreal_asset::archive::{ByteReader, ByteWriter};
use unreal_asset::asset::name_map::NameMap;
use unreal_asset::error::Error;
use unreal_asset::exports::class_export::{read_class_fields, write_class_fields, SerializedInterfaceReference};
use unreal_asset::types::{NameIndex, PackageIndex};

fn names() -> NameMap {
    NameMap::from_name_batch(&["None".to_string(), "ExecuteUbergraph".to_string(), "Engine".to_string()])
}

fn i32s(v: &mut Vec<u8>, xs: &[i32]) {
    for x in xs {
        v.extend_from_slice(&x.to_le_bytes());
    }
}

/// Class fields of a recent object version: interfaces after the generated-by index, the
/// cooked flag present.
fn recent_bytes() -> Vec<u8> {
    let mut v = Vec::new();
    i32s(&mut v, &[1, 1, 0, 5]);
    v.extend_from_slice(&0x201u32.to_le_bytes());
    i32s(&mut v, &[-1, 2, 0]);
    i32s(&mut v, &[-2]);
    i32s(&mut v, &[1, 3, 4, 1]);
    i32s(&mut v, &[1, 0, 0, 0, 2]);
    v
}

#[test]
fn class_fields_read_in_the_recent_layout() {
    let bytes = recent_bytes();
    let mut r = ByteReader::new(bytes.clone());
    let c = read_class_fields(&mut r, &names(), 522).unwrap();
    assert_eq!(c.func_map, vec![(NameIndex { index: 1, number: 0 }, PackageIndex::new(5))]);
    assert_eq!(c.class_flags, 0x201);
    assert_eq!(c.class_within, PackageIndex::new(-1));
    assert_eq!(c.class_config_name, NameIndex { index: 2, number: 0 });
    assert_eq!(c.class_generated_by, PackageIndex::new(-2));
    assert_eq!(c.interfaces, vec![SerializedInterfaceReference::new(3, 4, true)]);
    assert!(c.deprecated_force_script_order);
    assert_eq!(c.cooked, Some(false));
    assert_eq!(c.class_default_object, PackageIndex::new(2));
    assert_eq!(r.position() as usize, bytes.len());
}

#[test]
fn class_fields_write_back_their_bytes() {
    let bytes = recent_bytes();
    let c = read_class_fields(&mut ByteReader::new(bytes.clone()), &names(), 522).unwrap();
    let mut w = ByteWriter::new();
    write_class_fields(&c, &mut w, 522, NameIndex { index: 0, number: 0 }).unwrap();
    assert_eq!(w.data, bytes);
}

#[test]
fn class_fields_of_old_versions_put_interfaces_first_and_invert_not_placeable() {
    let mut v = Vec::new();
    i32s(&mut v, &[0]);
    v.extend_from_slice(&0x1u32.to_le_bytes());
    i32s(&mut v, &[0, 2, 0]);
    i32s(&mut v, &[1, 7, 8, 0]);
    i32s(&mut v, &[-3]);
    i32s(&mut v, &[0, 0, 0, 1, 4]);
    let c = read_class_fields(&mut ByteReader::new(v.clone()), &names(), 300).unwrap();
    assert!(c.func_map.is_empty());
    assert_eq!(c.class_flags, 0x201);
    assert_eq!(c.interfaces, vec![SerializedInterfaceReference::new(7, 8, false)]);
    assert_eq!(c.class_generated_by, PackageIndex::new(-3));
    assert!(!c.deprecated_force_script_order);
    assert_eq!(c.cooked, Some(true));
    assert_eq!(c.class_default_object, PackageIndex::new(4));
    let mut w = ByteWriter::new();
    write_class_fields(&c, &mut w, 300, NameIndex { index: 0, number: 0 }).unwrap();
    assert_eq!(w.data, v);
}

#[test]
fn class_fields_before_cooked_flag_have_none() {
    let mut v = Vec::new();
    i32s(&mut v, &[0]);
    v.extend_from_slice(&0u32.to_le_bytes());
    i32s(&mut v, &[0, 2, 0]);
    i32s(&mut v, &[0]);
    i32s(&mut v, &[0]);
    i32s(&mut v, &[0, 0, 0, 9]);
    let mut r = ByteReader::new(v.clone());
    let c = read_class_fields(&mut r, &names(), 200).unwrap();
    assert_eq!(c.cooked, None);
    assert_eq!(c.class_flags, 0x200);
    assert_eq!(c.class_default_object, PackageIndex::new(9));
    assert_eq!(r.position() as usize, v.len());
}

#[test]
fn class_fields_with_negative_function_count_fail() {
    let mut v = Vec::new();
    i32s(&mut v, &[-1]);
    let res = read_class_fields(&mut ByteReader::new(v), &names(), 522);
    assert!(matches!(res, Err(Error::InvalidFile(_))));
}

#[test]
fn class_fields_with_unknown_function_name_fail() {
    let mut bytes = recent_bytes();
    bytes[4..8].copy_from_slice(&9i32.to_le_bytes());
    assert!(read_class_fields(&mut ByteReader::new(bytes), &names(), 522).is_err());
}

#[test]
fn class_fields_cut_short_fail() {
    let bytes = recent_bytes();
    assert!(read_class_fields(&mut ByteReader::new(bytes[..bytes.len() - 1].to_vec()), &names(), 522).is_err());
}

#[test]
fn class_fields_without_cooked_flag_are_not_written() {
    let mut c = read_class_fields(&mut ByteReader::new(recent_bytes()), &names(), 522).unwrap();
    c.cooked = None;
    let mut w = ByteWriter::new();
    match write_class_fields(&c, &mut w, 522, NameIndex { index: 0, number: 0 }) {
        Err(Error::NoData(m)) => assert_eq!(m, "engine_version >= UE4_ADD_COOKED_TO_UCLASS but cooked is None"),
        _ => panic!("expected missing data"),
    }
    assert!(w.data.is_empty());
}
