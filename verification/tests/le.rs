use vkot_client::le::{push_i16_le, push_u32_le};
use vkot_client::msg::{read_i16, read_u32};

#[test]
fn u32_bytes_are_least_significant_first() {
    let mut out = Vec::new();
    push_u32_le(&mut out, 0x1234_5678);
    assert_eq!(out, vec![0x78, 0x56, 0x34, 0x12]);
    assert_eq!(out, 0x1234_5678u32.to_le_bytes().to_vec());
}

#[test]
fn i16_bytes_are_twos_complement() {
    let mut out = Vec::new();
    push_i16_le(&mut out, -2);
    push_i16_le(&mut out, 258);
    assert_eq!(out, vec![0xFE, 0xFF, 0x02, 0x01]);
}

#[test]
fn read_u32_reads_edge_values() {
    assert_eq!(read_u32(&[0, 0, 0, 0]), 0);
    assert_eq!(read_u32(&[0xFF, 0xFF, 0xFF, 0xFF]), u32::MAX);
    assert_eq!(read_u32(&[0x78, 0x56, 0x34, 0x12]), 0x1234_5678);
}

#[test]
fn read_i16_reads_edge_values() {
    assert_eq!(read_i16(&[0, 0]), 0);
    assert_eq!(read_i16(&[0xFF, 0x7F]), i16::MAX);
    assert_eq!(read_i16(&[0x00, 0x80]), i16::MIN);
    assert_eq!(read_i16(&[0xFF, 0xFF]), -1);
}

#[test]
fn integers_round_trip_through_their_bytes() {
    for x in [0u32, 1, 255, 256, 65535, 65536, 0x00FF_FFFF, 0x0100_0000, u32::MAX] {
        let mut out = Vec::new();
        push_u32_le(&mut out, x);
        assert_eq!(out, x.to_le_bytes().to_vec());
        assert_eq!(read_u32(&out), x);
    }
    for x in [i16::MIN, -32767, -257, -256, -1, 0, 1, 255, 256, 32766, i16::MAX] {
        let mut out = Vec::new();
        push_i16_le(&mut out, x);
        assert_eq!(out, x.to_le_bytes().to_vec());
        assert_eq!(read_i16(&out), x);
    }
}
