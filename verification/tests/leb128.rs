//! Tests for the byte-buffer writer primitives: LEB128 variable-length
//! integers, fixed-width little-endian integers, names, and the length
//! splice.

use wasm_encoder::encoder::WasmEncoder;

#[test]
fn test_leb_u32_min_encoding() {
    let mut encoder = WasmEncoder::new();
    let byte_count = encoder.push_leb_u32(u32::MIN);
    let expected_bytes = [0x00];

    assert_eq!(encoder.as_slice(), expected_bytes);
    assert_eq!(byte_count, expected_bytes.len() as u32);
}

#[test]
fn test_leb_u32_max_encoding() {
    let mut encoder = WasmEncoder::new();
    let byte_count = encoder.push_leb_u32(u32::MAX);
    let expected_bytes = [0xff, 0xff, 0xff, 0xff, 0x0f];

    assert_eq!(encoder.as_slice(), expected_bytes);
    assert_eq!(byte_count, expected_bytes.len() as u32);
}

#[test]
fn test_leb_i32_zero_encoding() {
    let mut encoder = WasmEncoder::new();
    let byte_count = encoder.push_leb_i32(0);
    let expected_bytes = [0x00];

    assert_eq!(encoder.as_slice(), expected_bytes);
    assert_eq!(byte_count, expected_bytes.len() as u32);
}

#[test]
fn test_leb_i32_min_encoding() {
    let mut encoder = WasmEncoder::new();
    let byte_count = encoder.push_leb_i32(i32::MIN);
    let expected_bytes = [0x80, 0x80, 0x80, 0x80, 0x78];

    assert_eq!(encoder.as_slice(), expected_bytes);
    assert_eq!(byte_count, expected_bytes.len() as u32);
}

#[test]
fn test_leb_i32_max_encoding() {
    let mut encoder = WasmEncoder::new();
    let byte_count = encoder.push_leb_i32(i32::MAX);
    let expected_bytes = [0xff, 0xff, 0xff, 0xff, 0x07];

    assert_eq!(encoder.as_slice(), expected_bytes);
    assert_eq!(byte_count, expected_bytes.len() as u32);
}

#[test]
fn test_leb_i32_positive_encoding() {
    let mut encoder = WasmEncoder::new();
    let byte_count = encoder.push_leb_i32(64);
    let expected_bytes = [0xc0, 0x00];

    assert_eq!(encoder.as_slice(), expected_bytes);
    assert_eq!(byte_count, expected_bytes.len() as u32);
}

#[test]
fn test_leb_i32_negative_encoding() {
    let mut encoder = WasmEncoder::new();
    let byte_count = encoder.push_leb_i32(-64);
    let expected_bytes = [0x40];

    assert_eq!(encoder.as_slice(), expected_bytes);
    assert_eq!(byte_count, expected_bytes.len() as u32);
}

#[test]
fn test_leb_u64_max_encoding() {
    let mut encoder = WasmEncoder::new();
    let byte_count = encoder.push_leb_u64(u64::MAX);
    let expected_bytes = [0xff, 0xff, 0xff, 0xff, 0xff, 0xff, 0xff, 0xff, 0xff, 0x01];

    assert_eq!(encoder.as_slice(), expected_bytes);
    assert_eq!(byte_count, expected_bytes.len() as u32);
}

#[test]
fn test_leb_u64_seven_bit_boundary() {
    let mut encoder = WasmEncoder::new();
    let byte_count = encoder.push_leb_u64(128);
    let expected_bytes = [0x80, 0x01];

    assert_eq!(encoder.as_slice(), expected_bytes);
    assert_eq!(byte_count, expected_bytes.len() as u32);
}

#[test]
fn test_leb_i64_min_encoding() {
    let mut encoder = WasmEncoder::new();
    let byte_count = encoder.push_leb_i64(i64::MIN);
    let expected_bytes = [0x80, 0x80, 0x80, 0x80, 0x80, 0x80, 0x80, 0x80, 0x80, 0x7f];

    assert_eq!(encoder.as_slice(), expected_bytes);
    assert_eq!(byte_count, expected_bytes.len() as u32);
}

#[test]
fn test_leb_i64_max_encoding() {
    let mut encoder = WasmEncoder::new();
    let byte_count = encoder.push_leb_i64(i64::MAX);
    let expected_bytes = [0xff, 0xff, 0xff, 0xff, 0xff, 0xff, 0xff, 0xff, 0xff, 0x00];

    assert_eq!(encoder.as_slice(), expected_bytes);
    assert_eq!(byte_count, expected_bytes.len() as u32);
}

#[test]
fn test_push_u8_appends_single_byte() {
    let mut encoder = WasmEncoder::new();
    let byte_count = encoder.push_u8(0xab);

    assert_eq!(encoder.as_slice(), [0xab]);
    assert_eq!(byte_count, 1);
}

#[test]
fn test_push_u16_little_endian() {
    let mut encoder = WasmEncoder::new();
    let byte_count = encoder.push_u16(0x1234);

    assert_eq!(encoder.as_slice(), [0x34, 0x12]);
    assert_eq!(byte_count, 2);
}

#[test]
fn test_push_u32_little_endian() {
    let mut encoder = WasmEncoder::new();
    let byte_count = encoder.push_u32(0x6d736100);

    assert_eq!(encoder.as_slice(), [0x00, 0x61, 0x73, 0x6d]);
    assert_eq!(byte_count, 4);
}

#[test]
fn test_push_str_prefixes_byte_length() {
    let mut encoder = WasmEncoder::new();
    let byte_count = encoder.push_str("add");

    assert_eq!(encoder.as_slice(), [0x03, 0x61, 0x64, 0x64]);
    assert_eq!(byte_count, 4);
}

#[test]
fn test_push_str_empty() {
    let mut encoder = WasmEncoder::new();
    let byte_count = encoder.push_str("");

    assert_eq!(encoder.as_slice(), [0x00]);
    assert_eq!(byte_count, 1);
}

#[test]
fn test_push_str_long_name_gets_two_byte_length() {
    let name: String = std::iter::repeat('x').take(130).collect();
    let mut encoder = WasmEncoder::new();
    let byte_count = encoder.push_str(name.as_str());

    let mut expected_bytes = vec![0x82, 0x01];
    expected_bytes.extend(std::iter::repeat(b'x').take(130));
    assert_eq!(encoder.as_slice(), expected_bytes.as_slice());
    assert_eq!(byte_count, expected_bytes.len() as u32);
}

#[test]
fn test_write_length_single_byte_splice() {
    let mut encoder = WasmEncoder::new();
    encoder.push_u8(0x07);
    encoder.push_u8(0);
    encoder.push_u8(0xaa);
    encoder.push_u8(0xbb);
    let length_count = encoder.write_length(2);

    assert_eq!(encoder.as_slice(), [0x07, 0x02, 0xaa, 0xbb]);
    assert_eq!(length_count, 1);
}

#[test]
fn test_write_length_widening_splice() {
    let mut encoder = WasmEncoder::new();
    encoder.push_u8(0x0b);
    encoder.push_u8(0);
    let mut content_length: u32 = 0;
    for _ in 0..200 {
        content_length += encoder.push_u8(0xee);
    }
    let length_count = encoder.write_length(content_length);

    let mut expected_bytes = vec![0x0b, 0xc8, 0x01];
    expected_bytes.extend(std::iter::repeat(0xee).take(200));
    assert_eq!(encoder.as_slice(), expected_bytes.as_slice());
    assert_eq!(length_count, 2);
}
