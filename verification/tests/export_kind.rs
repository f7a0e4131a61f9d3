use unreal_asset::asset::name_map::NameMap;
use unreal_asset::enums::{EArrayDim, ELifetimeCondition};
use unreal_asset::asset::overrides::override_table;
use unreal_asset::exports::export_kind::{class_map_override_tables, class_map_overrides, export_falls_back_to_raw, export_kind_of, ExportKind};
use unreal_asset::flags::EPropertyFlags;
use unreal_asset::fproperty::{FGenericProperty, FIndexProperty, FMapProperty, FProperty};
use unreal_asset::iostore::flags::EObjectFlags;
use unreal_asset::types::{NameIndex, PackageIndex};

#[test]
fn export_kinds_by_class_name() {
    assert_eq!(export_kind_of("Level"), ExportKind::Level);
    assert_eq!(export_kind_of("World"), ExportKind::World);
    assert_eq!(export_kind_of("UserDefinedStruct"), ExportKind::UserDefinedStruct);
    assert_eq!(export_kind_of("StringTable"), ExportKind::StringTable);
    assert_eq!(export_kind_of("Enum"), ExportKind::Enum);
    assert_eq!(export_kind_of("UserDefinedEnum"), ExportKind::Enum);
    assert_eq!(export_kind_of("Function"), ExportKind::Function);
}

#[test]
fn export_kinds_by_class_name_suffix() {
    assert_eq!(export_kind_of("CompositeDataTable"), ExportKind::DataTable);
    assert_eq!(export_kind_of("MyStringTable"), ExportKind::StringTable);
    assert_eq!(export_kind_of("WidgetBlueprintGeneratedClass"), ExportKind::Class);
    assert_eq!(export_kind_of("IntProperty"), ExportKind::Property);
    assert_eq!(export_kind_of("StaticMesh"), ExportKind::Normal);
    assert_eq!(export_kind_of("Levels"), ExportKind::Normal);
    assert_eq!(export_kind_of(""), ExportKind::Normal);
}

#[test]
fn export_falls_back_to_raw_when_it_overruns_the_next() {
    assert!(export_falls_back_to_raw(10, 20));
    assert!(!export_falls_back_to_raw(20, 10));
    assert!(!export_falls_back_to_raw(10, 10));
}

fn generic(name: i32) -> FGenericProperty {
    FGenericProperty {
        name: NameIndex { index: name, number: 0 },
        flags: EObjectFlags::from_bits_retain(0),
        array_dim: EArrayDim::NotAnArray,
        element_size: 1,
        property_flags: EPropertyFlags::from_bits_retain(0),
        rep_index: 0,
        rep_notify_func: NameIndex { index: 0, number: 0 },
        blueprint_replication_condition: ELifetimeCondition::CondNone,
        serialized_type: None,
    }
}

fn struct_prop(index: i32) -> Box<FProperty> {
    Box::new(FProperty::FStructProperty(FIndexProperty { generic_property: generic(0), index: PackageIndex::new(index) }))
}

#[test]
fn map_overrides_name_imported_structs() {
    let names = NameMap::from_name_batch(&["None".to_string(), "Scores".to_string(), "Ids".to_string()]);
    let imports = vec!["Vector".to_string(), "Guid".to_string()];
    let loaded = vec![
        FProperty::FMapProperty(FMapProperty { generic_property: generic(1), key_prop: struct_prop(-2), value_prop: struct_prop(-1) }),
        FProperty::FMapProperty(FMapProperty { generic_property: generic(2), key_prop: struct_prop(3), value_prop: struct_prop(-1) }),
        FProperty::FGenericProperty(generic(1)),
    ];
    let keys = class_map_overrides(&loaded, &names, &imports, true);
    assert_eq!(keys, vec![("Scores".to_string(), "Guid".to_string())]);
    let values = class_map_overrides(&loaded, &names, &imports, false);
    assert_eq!(values, vec![("Scores".to_string(), "Vector".to_string()), ("Ids".to_string(), "Vector".to_string())]);
    assert!(class_map_overrides(&Vec::new(), &names, &imports, true).is_empty());
}

#[test]
fn map_override_tables_hold_the_overrides() {
    let names = NameMap::from_name_batch(&["None".to_string(), "Scores".to_string(), "Ids".to_string()]);
    let imports = vec!["Vector".to_string(), "Guid".to_string()];
    let loaded = vec![
        FProperty::FMapProperty(FMapProperty { generic_property: generic(1), key_prop: struct_prop(-2), value_prop: struct_prop(-1) }),
        FProperty::FMapProperty(FMapProperty { generic_property: generic(2), key_prop: struct_prop(3), value_prop: struct_prop(-1) }),
    ];
    let (keys, values) = class_map_override_tables(&loaded, &names, &imports);
    assert_eq!(keys.len(), 1);
    assert_eq!(keys.get_by_key(&"Scores".to_string()).map(|s| s.as_str()), Some("Guid"));
    assert_eq!(values.len(), 2);
    assert_eq!(values.get_by_index(1).map(|s| s.as_str()), Some("Vector"));
    assert_eq!(values.get_by_key(&"Ids".to_string()).map(|s| s.as_str()), Some("Vector"));
}

#[test]
fn override_table_keeps_first_place_and_last_value() {
    let t = override_table(&vec![
        ("A".to_string(), "1".to_string()),
        ("B".to_string(), "2".to_string()),
        ("A".to_string(), "3".to_string()),
    ]);
    assert_eq!(t.len(), 2);
    assert_eq!(t.get_by_index(0).map(|s| s.as_str()), Some("3"));
    assert_eq!(t.get_by_index(1).map(|s| s.as_str()), Some("2"));
}
