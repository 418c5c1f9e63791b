use mmo::binary::{Binary, BinaryError};
use mmo::ping::Ping;

#[test]
fn to_binary_writes_little_endian_timestamp() {
    let p = Ping::with_timestamp(0x0102030405060708);
    assert_eq!(p.to_binary().unwrap(), vec![8, 7, 6, 5, 4, 3, 2, 1]);
}

#[test]
fn to_binary_negative_timestamp() {
    let p = Ping::with_timestamp(-2);
    assert_eq!(
        p.to_binary().unwrap(),
        vec![0xfe, 0xff, 0xff, 0xff, 0xff, 0xff, 0xff, 0xff]
    );
}

#[test]
fn from_binary_reads_first_eight_bytes() {
    let buf = vec![0xe8, 0x03, 0, 0, 0, 0, 0, 0];
    let p = Ping::from_binary(&buf).unwrap();
    assert_eq!(p.timestamp(), 1000);
}

#[test]
fn from_binary_ignores_trailing_bytes() {
    let buf = vec![1, 0, 0, 0, 0, 0, 0, 0, 9, 9, 9];
    assert_eq!(Ping::from_binary(&buf).unwrap().timestamp(), 1);
}

#[test]
fn from_binary_short_input_is_io_error() {
    let buf = vec![1, 2, 3, 4, 5, 6, 7];
    assert_eq!(Ping::from_binary(&buf), Err(BinaryError::Io));
    assert_eq!(Ping::from_binary(&Vec::new()), Err(BinaryError::Io));
}

#[test]
fn binary_roundtrip() {
    for t in [0i64, 1, -1, i64::MIN, i64::MAX, 1_600_000_000_000] {
        let p = Ping::with_timestamp(t);
        let bytes = p.to_binary().unwrap();
        assert_eq!(bytes.len(), 8);
        assert_eq!(Ping::from_binary(&bytes).unwrap(), p);
    }
}

#[test]
fn new_ping_reads_the_clock() {
    // 2020-01-01T00:00:00Z in milliseconds.
    let p = Ping::new();
    assert!(p.timestamp() > 1_577_836_800_000);
}
