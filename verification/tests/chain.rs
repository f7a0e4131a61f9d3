use unreal_asset::containers::chain::{Chain, SeekFrom};
use unreal_asset::error::{Error, IoErrorKind};

#[test]
fn read() {
    let mut chain = Chain::new(vec![0, 1, 2, 3, 4, 5, 6, 7], Some(vec![0, 1, 2, 3]));
    let v = chain.read_to_end();
    assert_eq!(v, [0, 1, 2, 3, 4, 5, 6, 7, 0, 1, 2, 3]);
}

#[test]
fn seek() {
    let mut chain = Chain::new(vec![0, 1, 2, 3], Some(vec![4, 5, 6, 7]));
    let mut read_at = |pos| -> Result<u8, Error> {
        chain.seek(pos)?;
        chain.read_u8()
    };
    assert_eq!(read_at(SeekFrom::Start(0)).unwrap(), 0);
    assert!(read_at(SeekFrom::Start(8)).is_err());
    assert_eq!(read_at(SeekFrom::Current(-1)).unwrap(), 7);
    assert_eq!(read_at(SeekFrom::Current(-5)).unwrap(), 3);
    assert_eq!(read_at(SeekFrom::End(-4)).unwrap(), 4);
    assert!(read_at(SeekFrom::End(-12)).is_err());
}

#[test]
fn chain_without_second_part_reads_first_only() {
    let mut chain = Chain::new(vec![9, 8, 7], None);
    assert_eq!(chain.len(), 3);
    assert_eq!(chain.read(2), vec![9, 8]);
    assert_eq!(chain.read(5), vec![7]);
    assert_eq!(chain.read(5), Vec::<u8>::new());
    assert!(matches!(chain.read_u8(), Err(Error::Io(IoErrorKind::UnexpectedEof))));
}

#[test]
fn chain_without_second_part_rejects_negative_seek() {
    let mut chain = Chain::new(vec![1, 2, 3], None);
    assert!(matches!(chain.seek(SeekFrom::End(-4)), Err(Error::Io(IoErrorKind::InvalidInput))));
    assert_eq!(chain.seek(SeekFrom::End(-1)).unwrap(), 2);
    assert_eq!(chain.read_u8().unwrap(), 3);
    assert!(matches!(chain.seek(SeekFrom::Current(-4)), Err(Error::Io(IoErrorKind::InvalidInput))));
    assert_eq!(chain.seek(SeekFrom::Current(-1)).unwrap(), 2);
}

#[test]
fn chained_read_across_the_boundary() {
    let mut chain = Chain::new(vec![1, 2], Some(vec![3, 4, 5]));
    assert_eq!(chain.seek(SeekFrom::Start(1)).unwrap(), 1);
    assert_eq!(chain.read(3), vec![2, 3, 4]);
    assert_eq!(chain.read_u8().unwrap(), 5);
}
