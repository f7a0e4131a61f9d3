use unreal_asset::ac7::{AC7Reader, AC7Writer, AC7XorKey, KEY_TABLE_LEN};

fn table() -> Vec<u8> {
    (0..KEY_TABLE_LEN).map(|i| (i % 251) as u8).collect()
}

#[test]
fn key_stream_starts_at_the_name_position() {
    let t = table();
    let mut reader = AC7Reader::new(AC7XorKey::new("abc"), ());
    let mut buf = vec![0x10, 0x20];
    reader.decrypt(&t, &mut buf);
    assert_eq!(buf, vec![214, 145]);

    let mut reader = AC7Reader::new(AC7XorKey::new("ex02_IGC_03_Subtitle"), ());
    let mut buf = vec![0];
    reader.decrypt(&t, &mut buf);
    assert_eq!(buf, vec![213]);
}

#[test]
fn names_are_case_insensitive() {
    assert_eq!(AC7XorKey::new("abc"), AC7XorKey::new("ABC"));
    assert_ne!(AC7XorKey::new("abc"), AC7XorKey::new("abd"));
}

#[test]
fn decrypt_undoes_encrypt() {
    let t = table();
    let data: Vec<u8> = (0..3000u32).map(|i| (i * 7 % 256) as u8).collect();
    let mut buf = data.clone();
    let mut writer = AC7Writer::new(AC7XorKey::new("SomeAsset"), 5u32);
    writer.encrypt(&t, &mut buf);
    assert_ne!(buf, data);
    assert_eq!(writer.into_inner(), 5);
    let mut reader = AC7Reader::new(AC7XorKey::new("SomeAsset"), ());
    reader.decrypt(&t, &mut buf);
    assert_eq!(buf, data);
}
