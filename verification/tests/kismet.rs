use unreal_asset::archive::{ByteReader, ByteWriter};
use unreal_asset::asset::name_map::NameMap;
use unreal_asset::error::{Error, KismetError};
use unreal_asset::kismet::expression::{
    FScriptText, FieldPath, KismetExpression, KismetPropertyPointer, KismetSwitchCase,
};
use unreal_asset::kismet::tokens::{EBlueprintTextLiteralType, EExprToken, EScriptInstrumentationType};
use unreal_asset::types::{NameIndex, PackageIndex};

const NEW_VERSION: i32 = 522;
const OLD_VERSION: i32 = 500;

fn names() -> NameMap {
    NameMap::from_name_batch(&["Foo".to_string(), "Bar".to_string(), "Baz".to_string()])
}

fn name(index: i32) -> NameIndex {
    NameIndex { index, number: 0 }
}

fn new_ptr(path: Vec<NameIndex>, owner: i32) -> KismetPropertyPointer {
    KismetPropertyPointer::from_new(FieldPath::new(path, PackageIndex::new(owner)))
}

fn write(expr: &KismetExpression, ov: i32) -> (Result<usize, Error>, Vec<u8>) {
    let mut writer = ByteWriter::new();
    let res = expr.write(&mut writer, ov);
    (res, writer.data)
}

fn read(bytes: Vec<u8>, ov: i32) -> (Result<KismetExpression, Error>, u64) {
    let map = names();
    let mut reader = ByteReader::new(bytes);
    let res = KismetExpression::new(&mut reader, &map, ov);
    (res, reader.position())
}

fn roundtrip(expr: KismetExpression, ov: i32) {
    let (res, bytes) = write(&expr, ov);
    assert!(res.is_ok());
    let len = bytes.len() as u64;
    let (back, pos) = read(bytes, ov);
    assert_eq!(back.unwrap(), expr);
    assert_eq!(pos, len);
}

#[test]
fn int_const_reads_its_value() {
    let (res, pos) = read(vec![0x1D, 0x2A, 0x00, 0x00, 0x00, 0xFF], NEW_VERSION);
    assert_eq!(res.unwrap(), KismetExpression::ExIntConst { value: 42 });
    assert_eq!(pos, 5);
}

#[test]
fn int_const_writes_token_and_value() {
    let (res, bytes) = write(&KismetExpression::ExIntConst { value: -2 }, NEW_VERSION);
    assert_eq!(res.unwrap(), 5);
    assert_eq!(bytes, vec![0x1D, 0xFE, 0xFF, 0xFF, 0xFF]);
}

#[test]
fn empty_input_is_end_of_file() {
    let (res, _) = read(vec![], NEW_VERSION);
    assert!(matches!(res, Err(Error::Io(_))));
    let (res, _) = read(vec![0x1D, 0x01], NEW_VERSION);
    assert!(matches!(res, Err(Error::Io(_))));
}

#[test]
fn unknown_token_fails() {
    let (res, pos) = read(vec![0xFF], NEW_VERSION);
    match res {
        Err(Error::Kismet(KismetError::UnknownExpression(m))) => {
            assert_eq!(m, "Unknown kismet expression 255")
        }
        _ => panic!("expected an unknown expression"),
    }
    assert_eq!(pos, 1);
}

#[test]
fn byte_that_names_no_token_is_invalid_enum() {
    let (res, pos) = read(vec![0x6F, 0x00], NEW_VERSION);
    assert!(matches!(res, Err(Error::InvalidEnumValue(_))));
    assert_eq!(pos, 1);
}

#[test]
fn primitive_cast_with_unknown_cast_byte_is_invalid_enum() {
    let (res, pos) = read(vec![0x38, 0x01, 0x27], NEW_VERSION);
    assert!(matches!(res, Err(Error::InvalidEnumValue(_))));
    assert_eq!(pos, 2);
}

#[test]
fn instrumentation_event_with_unknown_type_is_invalid_enum() {
    let (res, pos) = read(vec![0x6A, 0x11], NEW_VERSION);
    assert!(matches!(res, Err(Error::InvalidEnumValue(_))));
    assert_eq!(pos, 2);
}

#[test]
fn name_const_checks_the_name_map() {
    let (res, _) = read(vec![0x21, 0x01, 0, 0, 0, 0, 0, 0, 0], NEW_VERSION);
    assert_eq!(res.unwrap(), KismetExpression::ExNameConst { value: name(1) });
    let (res, _) = read(vec![0x21, 0x07, 0, 0, 0, 0, 0, 0, 0], NEW_VERSION);
    assert!(res.is_err());
}

#[test]
fn virtual_function_reads_parameters_up_to_the_end_token() {
    let bytes = vec![
        0x1B, 0x02, 0, 0, 0, 0, 0, 0, 0, // name Baz
        0x27, // ExTrue
        0x1D, 0x07, 0, 0, 0, // ExIntConst 7
        0x16, // ExEndFunctionParms
    ];
    let (res, pos) = read(bytes, NEW_VERSION);
    assert_eq!(
        res.unwrap(),
        KismetExpression::ExVirtualFunction {
            virtual_function_name: name(2),
            parameters: vec![KismetExpression::ExTrue, KismetExpression::ExIntConst { value: 7 }],
        }
    );
    assert_eq!(pos, 16);
}

#[test]
fn virtual_function_offset_counts_name_and_parameters() {
    let expr = KismetExpression::ExVirtualFunction {
        virtual_function_name: name(2),
        parameters: vec![KismetExpression::ExTrue, KismetExpression::ExIntConst { value: 7 }],
    };
    let (res, bytes) = write(&expr, NEW_VERSION);
    // token, name (12), ExTrue (1), ExIntConst (5), end token (1)
    assert_eq!(res.unwrap(), 1 + 12 + 1 + 5 + 1);
    assert_eq!(bytes.len(), 16);
}

#[test]
fn property_pointer_follows_the_object_version() {
    let with_path = KismetExpression::ExLocalVariable { variable: new_ptr(vec![name(0), name(1)], -3) };
    let (res, bytes) = write(&with_path, NEW_VERSION);
    assert_eq!(res.unwrap(), 9);
    assert_eq!(
        bytes,
        vec![0x00, 2, 0, 0, 0, 0, 0, 0, 0, 0, 0, 0, 0, 1, 0, 0, 0, 0, 0, 0, 0, 0xFD, 0xFF, 0xFF, 0xFF]
    );
    let (res, _) = write(&with_path, OLD_VERSION);
    assert!(matches!(res, Err(Error::NoData(_))));

    let with_index = KismetExpression::ExLocalVariable {
        variable: KismetPropertyPointer::from_old(PackageIndex::new(5)),
    };
    let (res, bytes) = write(&with_index, OLD_VERSION);
    assert_eq!(res.unwrap(), 9);
    assert_eq!(bytes, vec![0x00, 5, 0, 0, 0]);
    let (res, _) = write(&with_index, NEW_VERSION);
    assert!(matches!(res, Err(Error::NoData(_))));
}

#[test]
fn negative_field_path_length_fails() {
    let (res, _) = read(vec![0x00, 0xFF, 0xFF, 0xFF, 0xFF, 0, 0, 0, 0], NEW_VERSION);
    assert!(res.is_err());
    assert!(!matches!(res, Err(Error::Io(_))));
}

#[test]
fn strings_round_trip() {
    roundtrip(KismetExpression::ExStringConst { value: "hello".to_string() }, NEW_VERSION);
    roundtrip(KismetExpression::ExUnicodeStringConst { value: "h\u{e9}llo \u{1F600}".to_string() }, NEW_VERSION);
    let (res, bytes) = write(&KismetExpression::ExStringConst { value: "ab".to_string() }, NEW_VERSION);
    assert_eq!(res.unwrap(), 4);
    assert_eq!(bytes, vec![0x1F, b'a', b'b', 0]);
    let (res, bytes) = write(&KismetExpression::ExUnicodeStringConst { value: "ab".to_string() }, NEW_VERSION);
    assert_eq!(res.unwrap(), 7);
    assert_eq!(bytes, vec![0x34, b'a', 0, b'b', 0, 0, 0]);
}

#[test]
fn nested_expressions_round_trip() {
    let expr = KismetExpression::ExLet {
        value: new_ptr(vec![name(0)], 1),
        variable: Box::new(KismetExpression::ExLocalVariable { variable: new_ptr(vec![name(1)], 2) }),
        expression: Box::new(KismetExpression::ExVirtualFunction {
            virtual_function_name: name(2),
            parameters: vec![
                KismetExpression::ExSelf,
                KismetExpression::ExFloatConst { value: 1.5f32.to_bits() },
                KismetExpression::ExRotationConst { pitch: 1, yaw: -2, roll: 3 },
            ],
        }),
    };
    roundtrip(expr, NEW_VERSION);
}

#[test]
fn switch_value_round_trips() {
    let expr = KismetExpression::ExSwitchValue {
        end_goto_offset: 99,
        index_term: Box::new(KismetExpression::ExIntConstByte { value: 3 }),
        default_term: Box::new(KismetExpression::ExFalse),
        cases: vec![
            KismetSwitchCase::new(KismetExpression::ExIntZero, 10, KismetExpression::ExTrue),
            KismetSwitchCase::new(KismetExpression::ExIntOne, 20, KismetExpression::ExNoObject),
        ],
    };
    let (res, _) = write(&expr, NEW_VERSION);
    // token, count and end offset (6), index term (2), two cases of 1 + 4 + 1, default term (1)
    assert_eq!(res.unwrap(), 1 + 6 + 2 + 12 + 1);
    roundtrip(expr, NEW_VERSION);
}

#[test]
fn text_const_round_trips_and_needs_its_fields() {
    let text = FScriptText {
        text_literal_type: EBlueprintTextLiteralType::StringTableEntry,
        localized_source: None,
        localized_key: None,
        localized_namespace: None,
        invariant_literal_string: None,
        literal_string: None,
        string_table_asset: Some(PackageIndex::new(-4)),
        string_table_id: Some(KismetExpression::ExStringConst { value: "id".to_string() }),
        string_table_key: Some(KismetExpression::ExStringConst { value: "key".to_string() }),
    };
    let expr = KismetExpression::ExTextConst { value: Box::new(text) };
    let (res, _) = write(&expr, NEW_VERSION);
    // token, literal type (1), asset index (8), "id" (1 + 3), "key" (1 + 4)
    assert_eq!(res.unwrap(), 1 + 1 + 8 + 4 + 5);
    roundtrip(expr, NEW_VERSION);

    let missing = FScriptText {
        text_literal_type: EBlueprintTextLiteralType::LiteralString,
        localized_source: None,
        localized_key: None,
        localized_namespace: None,
        invariant_literal_string: None,
        literal_string: None,
        string_table_asset: None,
        string_table_id: None,
        string_table_key: None,
    };
    let (res, _) = write(&KismetExpression::ExTextConst { value: Box::new(missing) }, NEW_VERSION);
    assert!(matches!(res, Err(Error::NoData(_))));
}

#[test]
fn collections_round_trip() {
    roundtrip(
        KismetExpression::ExSetArray {
            assigning_property: Some(Box::new(KismetExpression::ExSelf)),
            array_inner_prop: None,
            elements: vec![KismetExpression::ExIntConst { value: 1 }, KismetExpression::ExIntConst { value: 2 }],
        },
        NEW_VERSION,
    );
    roundtrip(
        KismetExpression::ExMapConst {
            key_property: new_ptr(vec![name(0)], 0),
            value_property: new_ptr(vec![name(1)], 0),
            elements: vec![KismetExpression::ExByteConst { value: 1 }, KismetExpression::ExByteConst { value: 2 }],
        },
        NEW_VERSION,
    );
    roundtrip(
        KismetExpression::ExTransformConst {
            rotation: (1, 2, 3, 4),
            translation: unreal_asset::types::Vector { x: 5, y: 6, z: 7 },
            scale: unreal_asset::types::Vector { x: 8, y: 9, z: 10 },
        },
        NEW_VERSION,
    );
}

#[test]
fn instrumentation_event_needs_a_name_when_inline() {
    let inline = KismetExpression::ExInstrumentationEvent {
        event_type: EScriptInstrumentationType::InlineEvent,
        event_name: Some(name(1)),
    };
    let (res, _) = write(&inline, NEW_VERSION);
    assert_eq!(res.unwrap(), 10);
    roundtrip(inline, NEW_VERSION);
    let missing = KismetExpression::ExInstrumentationEvent {
        event_type: EScriptInstrumentationType::InlineEvent,
        event_name: None,
    };
    let (res, _) = write(&missing, NEW_VERSION);
    assert!(matches!(res, Err(Error::NoData(_))));
}

#[test]
fn read_arr_skips_unreadable_expressions() {
    let map = names();
    let bytes = vec![
        0x27, // ExTrue
        0x21, 0x09, 0, 0, 0, 0, 0, 0, 0, // name outside the map: skipped
        0x28, // ExFalse
        0x53, // ExEndOfScript
        0x27,
    ];
    let mut reader = ByteReader::new(bytes);
    let res = KismetExpression::read_arr(&mut reader, &map, NEW_VERSION, EExprToken::ExEndOfScript).unwrap();
    assert_eq!(res, vec![KismetExpression::ExTrue, KismetExpression::ExFalse]);
    assert_eq!(reader.position(), 12);

    let mut reader = ByteReader::new(vec![0x27, 0x28]);
    let res = KismetExpression::read_arr(&mut reader, &map, NEW_VERSION, EExprToken::ExEndOfScript);
    assert!(matches!(res, Err(Error::Io(_))));
}

#[test]
fn property_pointer_reads_back_its_write() {
    let map = names();
    let ptr = new_ptr(vec![name(2), name(0)], 17);
    let mut writer = ByteWriter::new();
    assert_eq!(ptr.write(&mut writer, NEW_VERSION).unwrap(), 8);
    let mut reader = ByteReader::new(writer.data);
    assert_eq!(KismetPropertyPointer::new(&mut reader, &map, NEW_VERSION).unwrap(), ptr);
}

#[test]
fn script_text_reads_back_its_write() {
    let map = names();
    let text = FScriptText {
        text_literal_type: EBlueprintTextLiteralType::InvariantText,
        localized_source: None,
        localized_key: None,
        localized_namespace: None,
        invariant_literal_string: Some(KismetExpression::ExStringConst { value: "txt".to_string() }),
        literal_string: None,
        string_table_asset: None,
        string_table_id: None,
        string_table_key: None,
    };
    let mut writer = ByteWriter::new();
    assert_eq!(text.write(&mut writer, NEW_VERSION).unwrap(), 1 + 1 + 4);
    let mut reader = ByteReader::new(writer.data);
    assert_eq!(FScriptText::new(&mut reader, &map, NEW_VERSION).unwrap(), text);
}

#[test]
fn operand_errors_are_returned_unchanged() {
    // a name constant whose index lies outside the name map
    let (res, _) = read(vec![0x21, 0x07, 0, 0, 0, 0, 0, 0, 0], NEW_VERSION);
    assert!(matches!(res, Err(Error::FName(7, _))));
    // a string constant whose bytes are not UTF-8
    let (res, pos) = read(vec![0x1F, 0xFF, 0x00], NEW_VERSION);
    assert!(matches!(res, Err(Error::Utf8)));
    assert_eq!(pos, 3);
    // a cast whose operand names no token
    let (res, _) = read(vec![0x38, 0x46, 0x6F], NEW_VERSION);
    assert!(matches!(res, Err(Error::InvalidEnumValue(_))));
}

#[test]
fn kismet_error_messages() {
    let e = KismetError::expression("Unknown kismet expression 255".to_string());
    assert!(matches!(e, KismetError::UnknownExpression(_)));
    assert_eq!(e.to_string(), "Unknown kismet expression 255");
    assert_eq!(KismetError::token("Unknown kismet token".to_string()).to_string(), "Unknown kismet token");
}
