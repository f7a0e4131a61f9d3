use unreal_asset::archive::{ByteReader, ByteWriter};
use unreal_asset::error::Error;
use unreal_asset::exports::string_table_export::StringTableExport;

fn fstring(v: &mut Vec<u8>, s: &str) {
    v.extend_from_slice(&(s.len() as i32 + 1).to_le_bytes());
    v.extend_from_slice(s.as_bytes());
    v.push(0);
}

fn table(count: i32, entries: &[(&str, &str)]) -> Vec<u8> {
    let mut v = vec![0u8; 4];
    fstring(&mut v, "Game");
    v.extend_from_slice(&count.to_le_bytes());
    for (k, x) in entries {
        fstring(&mut v, k);
        fstring(&mut v, x);
    }
    v
}

#[test]
fn string_table_reads_namespace_and_entries() {
    let bytes = table(2, &[("Hello", "Hallo"), ("Bye", "Tschuss")]);
    let mut r = ByteReader::new(bytes.clone());
    let e = StringTableExport::read(&mut r).unwrap();
    assert_eq!(e.table.namespace.as_deref(), Some("Game"));
    assert_eq!(e.table.value.len(), 2);
    assert_eq!(e.table.value.get_by_key(&"Bye".to_string()).map(|s| s.as_str()), Some("Tschuss"));
    assert_eq!(r.position() as usize, bytes.len());
    let mut w = ByteWriter::new();
    e.write(&mut w);
    assert_eq!(w.data, bytes);
}

#[test]
fn string_table_repeated_key_takes_last_text() {
    let bytes = table(2, &[("A", "1"), ("A", "2")]);
    let e = StringTableExport::read(&mut ByteReader::new(bytes)).unwrap();
    assert_eq!(e.table.value.len(), 1);
    assert_eq!(e.table.value.get_by_index(0).map(|s| s.as_str()), Some("2"));
}

#[test]
fn string_table_with_negative_count_is_empty() {
    let bytes = table(-3, &[]);
    let mut r = ByteReader::new(bytes.clone());
    let e = StringTableExport::read(&mut r).unwrap();
    assert_eq!(e.table.value.len(), 0);
    assert_eq!(r.position() as usize, bytes.len());
}

#[test]
fn string_table_with_null_key_fails() {
    let mut bytes = table(1, &[]);
    bytes.extend_from_slice(&0i32.to_le_bytes());
    match StringTableExport::read(&mut ByteReader::new(bytes)) {
        Err(Error::NoData(m)) => assert_eq!(m, "StringTable key is None"),
        _ => panic!("expected a missing key"),
    }
}
