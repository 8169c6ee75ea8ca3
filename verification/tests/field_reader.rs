use fuji_raf::helpers::{bytes_to_string, bytes_to_u32_be, TextFailure};

#[test]
fn big_endian_u32_exact_value() {
    let b: Vec<u8> = vec![0x12, 0x34, 0x56, 0x78, 0x9A];
    assert_eq!(bytes_to_u32_be(&b, 0), Some(0x1234_5678));
    assert_eq!(bytes_to_u32_be(&b, 1), Some(0x3456_789A));
}

#[test]
fn big_endian_u32_out_of_bounds_is_none() {
    let b: Vec<u8> = vec![1, 2, 3];
    assert_eq!(bytes_to_u32_be(&b, 0), None);
    let c: Vec<u8> = vec![1, 2, 3, 4, 5];
    assert_eq!(bytes_to_u32_be(&c, 2), None);
}

#[test]
fn text_decode_exact() {
    let b: Vec<u8> = b"hello".to_vec();
    assert_eq!(bytes_to_string(&b, 1, 4).unwrap(), "ell");
}

#[test]
fn text_decode_preserves_nul() {
    let b: Vec<u8> = vec![b'X', 0, b'Y'];
    assert_eq!(bytes_to_string(&b, 0, 3).unwrap(), "X\0Y");
}

#[test]
fn text_decode_out_of_bounds() {
    let b: Vec<u8> = b"abc".to_vec();
    assert_eq!(bytes_to_string(&b, 0, 4), Err(TextFailure::OutOfBounds));
    assert_eq!(bytes_to_string(&b, 2, 1), Err(TextFailure::OutOfBounds));
}

#[test]
fn text_decode_invalid_utf8() {
    let b: Vec<u8> = vec![0xC3, 0x28];
    assert_eq!(bytes_to_string(&b, 0, 2), Err(TextFailure::InvalidEncoding));
}

#[test]
fn text_decode_multibyte_utf8() {
    let b: Vec<u8> = vec![0xC3, 0xA9];
    assert_eq!(bytes_to_string(&b, 0, 2).unwrap(), "\u{e9}");
}

#[test]
fn text_decode_empty_range() {
    let b: Vec<u8> = b"abc".to_vec();
    assert_eq!(bytes_to_string(&b, 2, 2).unwrap(), "");
}
