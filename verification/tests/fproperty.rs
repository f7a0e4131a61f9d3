use unreal_asset::archive::{ByteReader, ByteWriter};
use unreal_asset::asset::name_map::NameMap;
use unreal_asset::enums::{EArrayDim, ELifetimeCondition};
use unreal_asset::error::{Error, IoErrorKind, PropertyError};
use unreal_asset::flags::EPropertyFlags;
use unreal_asset::fproperty::{FBoolProperty, FEnumProperty, FGenericProperty, FInnerProperty, FProperty};
use unreal_asset::iostore::flags::EObjectFlags;
use unreal_asset::types::{NameIndex, PackageIndex};

fn names() -> NameMap {
    NameMap::from_name_batch(&[
        "BoolProperty".to_string(),
        "MyProp".to_string(),
        "None".to_string(),
        "IntProperty".to_string(),
        "MyProp".to_string(),
    ])
}

fn generic(name: i32, serialized_type: Option<NameIndex>) -> FGenericProperty {
    FGenericProperty {
        name: NameIndex { index: name, number: 0 },
        flags: EObjectFlags::from_bits_retain(0x1),
        array_dim: EArrayDim::NotAnArray,
        element_size: 1,
        property_flags: EPropertyFlags::from_bits_retain(0x4),
        rep_index: 0,
        rep_notify_func: NameIndex { index: 2, number: 0 },
        blueprint_replication_condition: ELifetimeCondition::CondNone,
        serialized_type,
    }
}

#[test]
fn name_map_keeps_first_occurrences() {
    let map = names();
    assert_eq!(map.names_len(), 4);
    assert_eq!(map.search_name_reference("MyProp"), Some(1));
    assert_eq!(map.search_name_reference("Missing"), None);
    assert_eq!(map.get_name_reference(3), "IntProperty");
    assert_eq!(map.get_name_reference(7), "7");
    assert_eq!(map.get_name_reference(-5), "5");
}

#[test]
fn name_map_add_finds_or_appends() {
    let mut map = names();
    let existing = map.add_fname("None");
    assert_eq!(existing, NameIndex { index: 2, number: 0 });
    assert_eq!(map.names_len(), 4);
    let added = map.add_fname_with_number("ArrayProperty", 3);
    assert_eq!(added, NameIndex { index: 4, number: 3 });
    assert_eq!(map.get_name_reference(4), "ArrayProperty");
    assert_eq!(map.add_name_reference("MyProp".to_string(), true), 4);
    assert_eq!(map.names_len(), 6);
    assert!(!map.is_empty());
    assert!(NameMap::new().is_empty());
}

#[test]
fn bool_property_roundtrip() {
    let mut map = names();
    let prop = FProperty::FBoolProperty(FBoolProperty {
        generic_property: generic(1, None),
        field_size: 1,
        byte_offset: 0,
        byte_mask: 1,
        field_mask: 0xff,
        native_bool: true,
        value: false,
    });
    let mut writer = ByteWriter::new();
    FProperty::write(&prop, &mut writer, &mut map).unwrap();
    assert_eq!(writer.data.len(), 8 + 39 + 6);
    assert_eq!(&writer.data[0..8], &[0, 0, 0, 0, 0, 0, 0, 0]);
    let mut reader = ByteReader::new(writer.data.clone());
    let read = FProperty::new(&mut reader, &map).unwrap();
    assert_eq!(read, prop);
    assert_eq!(reader.position(), 53);
}

#[test]
fn nested_property_adds_type_names() {
    let mut map = names();
    let prop = FProperty::FArrayProperty(FInnerProperty {
        generic_property: generic(1, None),
        inner: Box::new(FProperty::FGenericProperty(generic(2, Some(NameIndex { index: 3, number: 0 })))),
    });
    let mut writer = ByteWriter::new();
    FProperty::write(&prop, &mut writer, &mut map).unwrap();
    assert_eq!(map.names_len(), 5);
    assert_eq!(map.get_name_reference(4), "ArrayProperty");
    assert_eq!(writer.data.len(), 47 + 47);
    let mut reader = ByteReader::new(writer.data.clone());
    assert_eq!(FProperty::new(&mut reader, &map).unwrap(), prop);
}

#[test]
fn generic_property_without_type_is_written_as_generic() {
    let mut map = names();
    let prop = FProperty::FGenericProperty(generic(1, None));
    let mut writer = ByteWriter::new();
    FProperty::write(&prop, &mut writer, &mut map).unwrap();
    assert_eq!(map.get_name_reference(4), "Generic");
    let mut reader = ByteReader::new(writer.data.clone());
    let read = FProperty::new(&mut reader, &map).unwrap();
    assert_eq!(read, FProperty::FGenericProperty(generic(1, Some(NameIndex { index: 4, number: 0 }))));
}

#[test]
fn property_read_errors() {
    let map = names();
    let mut bad_name = vec![9, 0, 0, 0, 0, 0, 0, 0];
    bad_name.extend_from_slice(&[0; 39]);
    assert!(FProperty::new(&mut ByteReader::new(bad_name), &map).is_err());
    let mut short = vec![0, 0, 0, 0, 0, 0, 0, 0];
    short.extend_from_slice(&[0; 20]);
    assert!(FProperty::new(&mut ByteReader::new(short), &map).is_err());
    let mut writer = ByteWriter::new();
    generic(1, None).write(&mut writer);
    let mut bad_flags = writer.data.clone();
    bad_flags[11] = 0xf0;
    assert!(FGenericProperty::new(&mut ByteReader::new(bad_flags), &map).is_err());
    let mut bad_dim = writer.data.clone();
    bad_dim[12] = 3;
    assert!(FGenericProperty::new(&mut ByteReader::new(bad_dim), &map).is_err());
    let mut bad_condition = writer.data.clone();
    bad_condition[38] = 14;
    assert!(FGenericProperty::new(&mut ByteReader::new(bad_condition), &map).is_err());
    assert!(FGenericProperty::new(&mut ByteReader::new(writer.data.clone()), &map).is_ok());
}

#[test]
fn enum_and_bool_constructors_read_their_parts() {
    let map = names();
    let mut writer = ByteWriter::new();
    generic(1, None).write(&mut writer);
    writer.write_u8(1);
    writer.write_u8(2);
    writer.write_u8(3);
    writer.write_u8(4);
    writer.write_u8(7);
    writer.write_u8(0);
    let b = FBoolProperty::new(&mut ByteReader::new(writer.data.clone()), &map).unwrap();
    assert_eq!(b.byte_mask, 3);
    assert!(b.native_bool);
    assert!(!b.value);
    let mut writer = ByteWriter::new();
    generic(1, None).write(&mut writer);
    writer.write_i32(-3);
    writer.write_i32(3);
    writer.write_i32(0);
    generic(2, None).write(&mut writer);
    let e = FEnumProperty::new(&mut ByteReader::new(writer.data.clone()), &map).unwrap();
    assert_eq!(e.enum_value, PackageIndex::new(-3));
    assert_eq!(*e.underlying_prop, FProperty::FGenericProperty(generic(2, Some(NameIndex { index: 3, number: 0 }))));
}

#[test]
fn generic_property_error_kinds() {
    let map = names();
    let mut writer = ByteWriter::new();
    generic(1, None).write(&mut writer);
    let mut bad_flags = writer.data.clone();
    bad_flags[11] = 0xf0;
    let res = FGenericProperty::new(&mut ByteReader::new(bad_flags.clone()), &map);
    assert!(matches!(res, Err(Error::InvalidFile(m)) if m == "Invalid object flags"));
    // cut short after the flags: the flags are still checked first
    let res = FGenericProperty::new(&mut ByteReader::new(bad_flags[..14].to_vec()), &map);
    assert!(matches!(res, Err(Error::InvalidFile(_))));
    let mut bad_dim = writer.data.clone();
    bad_dim[12] = 3;
    let res = FGenericProperty::new(&mut ByteReader::new(bad_dim), &map);
    assert!(matches!(res, Err(Error::InvalidEnumValue(_))));
    let mut bad_property_flags = writer.data.clone();
    bad_property_flags[27] = 0xff;
    let res = FGenericProperty::new(&mut ByteReader::new(bad_property_flags), &map);
    assert!(matches!(res, Err(Error::InvalidFile(m)) if m == "Invalid property flags"));
    let mut bad_condition = writer.data.clone();
    bad_condition[38] = 14;
    let res = FGenericProperty::new(&mut ByteReader::new(bad_condition), &map);
    assert!(matches!(res, Err(Error::InvalidEnumValue(_))));
    let mut bad_notify = writer.data.clone();
    bad_notify[30] = 9;
    let res = FGenericProperty::new(&mut ByteReader::new(bad_notify), &map);
    assert!(matches!(res, Err(Error::FName(9, n)) if n == map.names_len()));
    let res = FGenericProperty::new(&mut ByteReader::new(writer.data[..20].to_vec()), &map);
    assert!(matches!(res, Err(Error::Io(IoErrorKind::UnexpectedEof))));
    let g = FGenericProperty::new(&mut ByteReader::new(writer.data.clone()), &map).unwrap();
    assert!(g.serialized_type.is_none());
}

#[test]
fn property_error_messages() {
    let e = PropertyError::property_field_none("value", "Some");
    assert!(matches!(&e, PropertyError::PropertyFieldNone(f, x) if f == "value" && x == "Some"));
    assert_eq!(e.to_string(), "value is None, expected Some");
    assert_eq!(PropertyError::headerless().to_string(), "include_header: true on headerless property");
    assert_eq!(PropertyError::other("bad".to_string()).to_string(), "bad");
}

#[test]
fn name_reference_out_of_range_gives_decimal_text() {
    let map = names();
    assert_eq!(map.get_name_reference(1234567), "1234567");
    assert_eq!(map.get_name_reference(i32::MAX), "2147483647");
    assert_eq!(map.get_name_reference(-10), "10");
    assert_eq!(map.get_name_reference(i32::MIN + 1), "2147483647");
}

#[test]
fn bool_property_reads_back_its_write() {
    let map = names();
    let b = FBoolProperty {
        generic_property: generic(1, None),
        field_size: 1,
        byte_offset: 2,
        byte_mask: 4,
        field_mask: 0xfe,
        native_bool: false,
        value: true,
    };
    let mut writer = ByteWriter::new();
    b.write(&mut writer);
    assert_eq!(writer.data.len(), 45);
    let mut reader = ByteReader::new(writer.data);
    let back = FBoolProperty::new(&mut reader, &map).unwrap();
    assert_eq!(back, b);
    assert_eq!(reader.position(), 45);
}
