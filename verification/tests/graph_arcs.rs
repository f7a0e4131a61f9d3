use unreal_asset::archive::ByteReader;
use unreal_asset::error::Error;
use unreal_asset::iostore::exports::EExportCommandType;
use unreal_asset::iostore::graph_data::{read_external_arcs, FExternalArc};

fn arc(v: &mut Vec<u8>, from: i32, command: u8, to: i32) {
    v.extend_from_slice(&from.to_le_bytes());
    v.push(command);
    v.extend_from_slice(&to.to_le_bytes());
}

#[test]
fn external_arcs_keep_packages_with_arcs() {
    let mut v = Vec::new();
    v.extend_from_slice(&1i32.to_le_bytes());
    arc(&mut v, 3, 1, 0);
    v.extend_from_slice(&0i32.to_le_bytes());
    v.extend_from_slice(&2i32.to_le_bytes());
    arc(&mut v, 0, 0, 1);
    arc(&mut v, 2, 1, 1);
    let mut r = ByteReader::new(v.clone());
    let arcs = read_external_arcs(&mut r, &vec![10, 20, 30]).unwrap();
    assert_eq!(arcs.len(), 2);
    assert_eq!(arcs[0].0, 10);
    assert_eq!(arcs[0].1, vec![FExternalArc { from: 3, from_command_type: EExportCommandType::Serialize, to: 0 }]);
    assert_eq!(arcs[1].0, 30);
    assert_eq!(arcs[1].1.len(), 2);
    assert_eq!(arcs[1].1[0].from_command_type, EExportCommandType::Create);
    assert_eq!(r.position() as usize, v.len());
}

#[test]
fn external_arcs_with_negative_count_fail() {
    let mut r = ByteReader::new((-1i32).to_le_bytes().to_vec());
    assert!(matches!(read_external_arcs(&mut r, &vec![1]), Err(Error::InvalidFile(_))));
}

#[test]
fn external_arcs_with_unknown_command_fail() {
    let mut v = Vec::new();
    v.extend_from_slice(&1i32.to_le_bytes());
    arc(&mut v, 0, 9, 0);
    assert!(read_external_arcs(&mut ByteReader::new(v), &vec![1]).is_err());
}

#[test]
fn external_arcs_of_no_import_read_nothing() {
    let mut r = ByteReader::new(vec![1, 2, 3]);
    assert!(read_external_arcs(&mut r, &Vec::new()).unwrap().is_empty());
    assert_eq!(r.position(), 0);
}
