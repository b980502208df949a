//! The varint and byte-string primitives against the reference
//! serialization: the bytes this crate emits for an integer or a byte
//! slice must be exactly the bytes postcard emits, and each side must
//! decode the other's output.

use pico_de_gallo::codec::{
    decode_chunk, decode_u8, decode_varint16, decode_varint32, encode_chunk, encode_varint16,
    encode_varint32,
};

fn enc16(v: u16) -> Vec<u8> {
    let mut out = Vec::new();
    encode_varint16(v, &mut out);
    out
}

fn enc32(v: u32) -> Vec<u8> {
    let mut out = Vec::new();
    encode_varint32(v, &mut out);
    out
}

#[test]
fn varint16_matches_postcard() {
    for v in [0u16, 1, 0x7f, 0x80, 0xff, 0x3fff, 0x4000, 0xabcd, 0xffff] {
        assert_eq!(enc16(v), postcard::to_stdvec(&v).unwrap(), "value {v}");
    }
}

#[test]
fn varint32_matches_postcard() {
    for v in [
        0u32, 1, 0x7f, 0x80, 0x3fff, 0x4000, 0x1f_ffff, 0x20_0000, 0xfff_ffff, 0x1000_0000,
        0xdead_beef, u32::MAX,
    ] {
        assert_eq!(enc32(v), postcard::to_stdvec(&v).unwrap(), "value {v}");
    }
}

#[test]
fn varint16_decodes_postcard_output() {
    for v in [0u16, 5, 0x7f, 0x80, 0x1234, 0x3fff, 0x4000, 0xffff] {
        let bytes = postcard::to_stdvec(&v).unwrap();
        let (decoded, used) = decode_varint16(&bytes, 0).unwrap();
        assert_eq!(decoded, v);
        assert_eq!(used, bytes.len());
    }
}

#[test]
fn varint32_decodes_postcard_output() {
    for v in [0u32, 5, 0x80, 0x4000, 0x20_0000, 0x1000_0000, u32::MAX] {
        let bytes = postcard::to_stdvec(&v).unwrap();
        let (decoded, used) = decode_varint32(&bytes, 0).unwrap();
        assert_eq!(decoded, v);
        assert_eq!(used, bytes.len());
    }
}

#[test]
fn postcard_decodes_varint_output() {
    for v in [0u16, 0x80, 0x3fff, 0x4000, 0xffff] {
        let bytes = enc16(v);
        let decoded: u16 = postcard::from_bytes(&bytes).unwrap();
        assert_eq!(decoded, v);
    }
    for v in [0u32, 0x80, 0x20_0000, u32::MAX] {
        let bytes = enc32(v);
        let decoded: u32 = postcard::from_bytes(&bytes).unwrap();
        assert_eq!(decoded, v);
    }
}

#[test]
fn chunk_matches_postcard_byte_slice() {
    let data: Vec<u8> = vec![0xab, 0xcd, 0xef];
    let mut mine = Vec::new();
    encode_chunk(&data, &mut mine);
    let reference = postcard::to_stdvec(&data.as_slice()).unwrap();
    assert_eq!(mine, reference);
}

#[test]
fn chunk_round_trip_with_trailing_bytes() {
    let data: Vec<u8> = (0u8..200).collect();
    let mut buf = Vec::new();
    encode_chunk(&data, &mut buf);
    buf.push(0x99);
    let (decoded, used) = decode_chunk(&buf, 0).unwrap();
    assert_eq!(decoded, data);
    assert_eq!(used, buf.len() - 1);
}

#[test]
fn truncated_and_noncanonical_varints_are_rejected() {
    let empty: Vec<u8> = Vec::new();
    assert!(decode_varint16(&empty, 0).is_none());
    // continuation byte with nothing after it
    assert!(decode_varint16(&vec![0x80], 0).is_none());
    // non-canonical: trailing zero group
    assert!(decode_varint16(&vec![0x80, 0x00], 0).is_none());
    // third byte pushes the value past sixteen bits
    assert!(decode_varint16(&vec![0xff, 0xff, 0x04], 0).is_none());
    assert!(decode_varint32(&vec![0x80], 0).is_none());
    assert!(decode_varint32(&vec![0xff, 0xff, 0xff, 0xff, 0x10], 0).is_none());
}

#[test]
fn chunk_shorter_than_its_length_prefix_is_rejected() {
    // claims five bytes but carries two
    let buf: Vec<u8> = vec![0x05, 0x01, 0x02];
    assert!(decode_chunk(&buf, 0).is_none());
}

#[test]
fn single_byte_decode() {
    let buf: Vec<u8> = vec![0x42, 0x43];
    let (b, used) = decode_u8(&buf, 1).unwrap();
    assert_eq!(b, 0x43);
    assert_eq!(used, 2);
    assert!(decode_u8(&buf, 2).is_none());
}
