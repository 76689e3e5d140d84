//! Tests of the binary integer codecs.
use spinal::binary::{encode_varint, encode_varint_signed, rd_varint, rd_varint_signed, hex_u64};
use spinal::Field;

fn varint(b: &[u8]) -> (u32, usize) {
    rd_varint(b, 0, Field::Count).unwrap()
}

fn varint_signed(b: &[u8]) -> (i32, usize) {
    rd_varint_signed(b, 0, Field::Count).unwrap()
}

#[test]
fn varint_pos() {
    assert_eq!(varint(&[0b00000000]).1, 1);
    assert_eq!(varint(&[0b00000000]).0, 0);
    assert_eq!(varint(&[0b00000001]).0, 1);
    assert_eq!(varint(&[0b01111111]).0, 127);
    assert_eq!(varint(&[0b11111111, 0b00000000]).0, 127);
    assert_eq!(varint(&[0b11111111, 0b00000001]).0, 255);
    let v = varint(&[0b11111111, 0b01111111]);
    assert_eq!(v.0, 0x3FFF);
    let v = varint(&[0b11111111, 0b11111111, 0b11111111, 0b01111111]);
    assert_eq!(v.0, 0xFFF_FFFF);

    // an extra byte stays unread
    let v = varint(&[0b11111111, 0b11111111, 0b11111111, 0b01111111, 0x42]);
    assert_eq!(v.1, 4);
    assert_eq!(v.0, 0xFFF_FFFF);

    // five bytes
    let v = varint(&[0b11111111, 0b11111111, 0b11111111, 0b11111111, 0b00000001]);
    assert_eq!(v.0, 0x1FFF_FFFF);
    let v = varint(&[0b11111111, 0b11111111, 0b11111111, 0b11111111, 0b00000011]);
    assert_eq!(v.1, 5);
    assert_eq!(v.0, 0x3FFF_FFFF);
    let v = varint(&[0b11111111, 0b11111111, 0b11111111, 0b11111111, 0b01111111]);
    assert_eq!(v.1, 5);
    assert_eq!(v.0, 0xFFFF_FFFF);

    // five bytes with a trailing byte
    let v = varint(&[0b11111111, 0b11111111, 0b11111111, 0b11111111, 0b01111111, 0x42]);
    assert_eq!(v.1, 5);
    assert_eq!(v.0, 0xFFFF_FFFF);
}

#[test]
fn varint_neg() {
    assert_eq!(varint_signed(&[0b00000000]).0, 0);
    assert_eq!(varint_signed(&[0b00000001]).0, -1);
    assert_eq!(varint_signed(&[0b00000010]).0, 1);
    assert_eq!(varint_signed(&[0b00000011]).0, -2);
    assert_eq!(varint_signed(&[0b01111110]).0, 63);
    assert_eq!(varint_signed(&[0b01111111]).0, -64);
    let v = varint_signed(&[0b11111111, 0b11111111, 0b11111111, 0b01111111]);
    assert_eq!(v.0, -0x800_0000);
    let v = varint_signed(&[0b11111110, 0b11111111, 0b11111111, 0b01111111]);
    assert_eq!(v.0, 0x7FF_FFFF);
    let v = varint_signed(&[0b11111110, 0b11111111, 0b11111111, 0b11111111, 0b11111111]);
    assert_eq!(v.0, 0x7FFF_FFFF);
}

#[test]
fn varint_round_trip_samples() {
    for v in [0u32, 1, 127, 128, 255, 0x3FFF, 0x4000, 0xFFF_FFFF, 0x1000_0000, u32::MAX] {
        let enc = encode_varint(v);
        let (back, used) = rd_varint(enc.as_slice(), 0, Field::Count).unwrap();
        assert_eq!(back, v);
        assert_eq!(used, enc.len());
    }
}

#[test]
fn varint_signed_round_trip_samples() {
    for v in [0i32, 1, -1, 63, -64, i32::MAX, i32::MIN, 4096, -4096] {
        let enc = encode_varint_signed(v);
        let (back, used) = rd_varint_signed(enc.as_slice(), 0, Field::Count).unwrap();
        assert_eq!(back, v);
        assert_eq!(used, enc.len());
    }
}

#[test]
fn varint_truncated_is_an_error() {
    assert!(rd_varint(&[0b10000001], 0, Field::Count).is_err());
    assert!(rd_varint(&[], 0, Field::Count).is_err());
}

#[test]
fn hex_formatting() {
    assert_eq!(hex_u64(0), "0");
    assert_eq!(hex_u64(0x2a), "2a");
    assert_eq!(hex_u64(0xdeadbeef), "deadbeef");
    assert_eq!(hex_u64(u64::MAX), "ffffffffffffffff");
}
