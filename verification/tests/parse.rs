use fuji_raf::common::{FieldName, ParseFailure};
use fuji_raf::fuji::parse;

/// A 200-byte buffer with a full, valid header: format "FUJIFILMCCD-RAW"
/// padded to 16 bytes, version "0100", an 8-byte identifier, a 32-byte model
/// field "X100" NUL-padded, and a 50-byte JPEG payload at offset 120.
fn sample_buffer() -> Vec<u8> {
    let mut b: Vec<u8> = vec![0u8; 200];
    b[0..15].copy_from_slice(b"FUJIFILMCCD-RAW");
    b[16..20].copy_from_slice(b"0100");
    b[20..28].copy_from_slice(b"FF129502");
    b[28..32].copy_from_slice(b"X100");
    b[84..88].copy_from_slice(&120u32.to_be_bytes());
    b[88..92].copy_from_slice(&50u32.to_be_bytes());
    for i in 120usize..170usize {
        b[i] = (i % 251) as u8;
    }
    b
}

#[test]
fn parses_full_header_and_jpeg() {
    let b = sample_buffer();
    let img = parse(&b).unwrap();
    assert_eq!(img.format, "FUJIFILMCCD-RAW\0");
    assert_eq!(img.version, "0100");
    assert_eq!(img.identifier, "FF129502");
    assert_eq!(img.model, "X100");
    assert_eq!(img.jpeg.bytes, b[120..170].to_vec());
}

#[test]
fn short_buffer_is_format_bounds_failure() {
    let b: Vec<u8> = vec![0u8; 10];
    let e = parse(&b).unwrap_err();
    assert_eq!(
        e,
        ParseFailure::Bounds { field: FieldName::Format, needed: 16, available: 10 }
    );
}

#[test]
fn empty_buffer_is_format_bounds_failure() {
    let b: Vec<u8> = Vec::new();
    let e = parse(&b).unwrap_err();
    assert_eq!(
        e,
        ParseFailure::Bounds { field: FieldName::Format, needed: 16, available: 0 }
    );
}

#[test]
fn model_nul_padding_is_stripped() {
    let b = sample_buffer();
    assert_eq!(parse(&b).unwrap().model, "X100");
}

#[test]
fn model_nul_bytes_are_stripped_everywhere() {
    let mut b = sample_buffer();
    b[28..36].copy_from_slice(b"X\0Pro\0 2");
    assert_eq!(parse(&b).unwrap().model, "XPro 2");
}

#[test]
fn jpeg_range_past_buffer_is_bounds_failure() {
    let mut b = sample_buffer();
    b[88..92].copy_from_slice(&100u32.to_be_bytes());
    let e = parse(&b).unwrap_err();
    assert_eq!(
        e,
        ParseFailure::Bounds { field: FieldName::JpegPayload, needed: 220, available: 200 }
    );
}

#[test]
fn identical_buffers_parse_identically() {
    let b1 = sample_buffer();
    let b2 = sample_buffer();
    let r1 = parse(&b1).unwrap();
    let r2 = parse(&b2).unwrap();
    assert_eq!(r1.format, r2.format);
    assert_eq!(r1.version, r2.version);
    assert_eq!(r1.identifier, r2.identifier);
    assert_eq!(r1.model, r2.model);
    assert_eq!(r1.jpeg.bytes, r2.jpeg.bytes);
    let mut c1 = sample_buffer();
    let mut c2 = sample_buffer();
    c1[0] = 0xFF;
    c2[0] = 0xFF;
    assert_eq!(parse(&c1).unwrap_err(), parse(&c2).unwrap_err());
}

#[test]
fn invalid_format_text_is_decode_failure() {
    let mut b = sample_buffer();
    b[5] = 0xFF;
    assert_eq!(
        parse(&b).unwrap_err(),
        ParseFailure::Decode { field: FieldName::Format }
    );
}

#[test]
fn invalid_model_text_is_decode_failure() {
    let mut b = sample_buffer();
    b[30] = 0xC3;
    b[31] = 0x28;
    assert_eq!(
        parse(&b).unwrap_err(),
        ParseFailure::Decode { field: FieldName::Model }
    );
}

#[test]
fn truncated_identifier_is_identifier_bounds_failure() {
    let b: Vec<u8> = vec![b'a'; 18];
    assert_eq!(
        parse(&b).unwrap_err(),
        ParseFailure::Bounds { field: FieldName::Identifier, needed: 28, available: 18 }
    );
}

#[test]
fn missing_jpeg_offset_is_jpeg_offset_bounds_failure() {
    let b: Vec<u8> = vec![b'a'; 70];
    assert_eq!(
        parse(&b).unwrap_err(),
        ParseFailure::Bounds { field: FieldName::JpegOffset, needed: 88, available: 70 }
    );
}

#[test]
fn missing_jpeg_length_is_jpeg_length_bounds_failure() {
    let b: Vec<u8> = vec![b'a'; 90];
    assert_eq!(
        parse(&b).unwrap_err(),
        ParseFailure::Bounds { field: FieldName::JpegLength, needed: 92, available: 90 }
    );
}

#[test]
fn zero_length_jpeg_at_offset_zero_succeeds() {
    let mut b: Vec<u8> = vec![b'a'; 92];
    b[84..92].copy_from_slice(&[0u8; 8]);
    let img = parse(&b).unwrap();
    assert!(img.jpeg.bytes.is_empty());
    assert_eq!(img.model, "aaaaaaaaaaaaaaaaaaaaaaaaaaaaaaaa");
}

#[test]
fn multibyte_utf8_in_identifier_decodes() {
    let mut b = sample_buffer();
    b[20..28].copy_from_slice("caf\u{e9}   ".as_bytes());
    assert_eq!(parse(&b).unwrap().identifier, "caf\u{e9}   ");
}
