use unreal_asset::archive::ByteReader;
use unreal_asset::error::Error;
use unreal_asset::iostore::name_batch::{read_name_batch, read_name_batch_old, SerializedNameHeader, HASH_VERSION_CITYHASH64};

fn batch(hash_version: u64) -> Vec<u8> {
    let mut v = Vec::new();
    v.extend_from_slice(&2i32.to_le_bytes());
    v.extend_from_slice(&4u32.to_le_bytes());
    v.extend_from_slice(&hash_version.to_le_bytes());
    v.extend_from_slice(&11u64.to_le_bytes());
    v.extend_from_slice(&12u64.to_le_bytes());
    v.extend_from_slice(&[0x00, 0x02, 0x80, 0x01]);
    v.extend_from_slice(b"ab");
    v.extend_from_slice(&[0xE9, 0x00]);
    v
}

#[test]
fn name_batch_reads_narrow_and_wide_names() {
    let bytes = batch(HASH_VERSION_CITYHASH64);
    let mut r = ByteReader::new(bytes.clone());
    let names = read_name_batch(&mut r).unwrap();
    assert_eq!(names.len(), 2);
    assert_eq!(names[0].name.as_deref(), Some("ab"));
    assert_eq!(names[1].name.as_deref(), Some("\u{e9}"));
    assert_eq!(r.position() as usize, bytes.len());
}

#[test]
fn name_batch_with_other_hash_version_is_unimplemented() {
    let mut r = ByteReader::new(batch(5));
    match read_name_batch(&mut r) {
        Err(Error::Unimplemented(m)) => assert_eq!(m, "Unimplemented name batch algorithm: 5"),
        _ => panic!("expected an unimplemented algorithm"),
    }
}

#[test]
fn empty_name_batch_is_its_count() {
    let mut r = ByteReader::new(vec![0, 0, 0, 0, 9, 9]);
    assert!(read_name_batch(&mut r).unwrap().is_empty());
    assert_eq!(r.position(), 4);
}

#[test]
fn name_batch_with_negative_count_fails() {
    let mut r = ByteReader::new((-1i32).to_le_bytes().to_vec());
    assert!(matches!(read_name_batch(&mut r), Err(Error::InvalidFile(_))));
}

#[test]
fn name_batch_cut_short_fails() {
    let bytes = batch(HASH_VERSION_CITYHASH64);
    let mut r = ByteReader::new(bytes[..bytes.len() - 1].to_vec());
    assert!(read_name_batch(&mut r).is_err());
}

#[test]
fn serialized_name_header_reads_width_and_length() {
    let mut r = ByteReader::new(vec![0x81, 0x02]);
    let h = SerializedNameHeader::read(&mut r).unwrap();
    assert!(h.is_wide);
    assert_eq!(h.len, 0x102);
}

#[test]
fn old_name_list_reads_header_then_name() {
    let mut v = vec![0x00, 0x03];
    v.extend_from_slice(b"Foo");
    v.extend_from_slice(&[0x80, 0x02, 0x41, 0x00, 0x42, 0x00]);
    let mut r = ByteReader::new(v.clone());
    let names = read_name_batch_old(&mut r, 2).unwrap();
    assert_eq!(names[0].name.as_deref(), Some("Foo"));
    assert_eq!(names[1].name.as_deref(), Some("AB"));
    assert_eq!(r.position() as usize, v.len());
    assert!(read_name_batch_old(&mut ByteReader::new(v), 3).is_err());
}
