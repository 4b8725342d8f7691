use enode_url::{hex_decode, hex_encode, ConversionError};

#[test]
fn decodes_lower_case_hex() {
    assert_eq!(hex_decode("0a1b").unwrap(), vec![0x0a, 0x1b]);
}

#[test]
fn decodes_upper_and_mixed_case_hex() {
    assert_eq!(hex_decode("DEadBEef").unwrap(), vec![0xde, 0xad, 0xbe, 0xef]);
}

#[test]
fn decodes_empty_string_to_no_bytes() {
    assert_eq!(hex_decode("").unwrap(), Vec::<u8>::new());
}

#[test]
fn rejects_odd_length_hex() {
    assert_eq!(hex_decode("abc"), Err(ConversionError::HexDecode));
    assert_eq!(hex_decode("0"), Err(ConversionError::HexDecode));
}

#[test]
fn rejects_non_hex_characters() {
    assert_eq!(hex_decode("zz"), Err(ConversionError::HexDecode));
    assert_eq!(hex_decode("12g4"), Err(ConversionError::HexDecode));
    assert_eq!(hex_decode("0x12"), Err(ConversionError::HexDecode));
    assert_eq!(hex_decode("12 34"), Err(ConversionError::HexDecode));
    assert_eq!(hex_decode("\u{0444}\u{0444}"), Err(ConversionError::HexDecode));
}

#[test]
fn encodes_bytes_lower_case() {
    assert_eq!(hex_encode(&[0xde, 0xad, 0xbe, 0xef]), "deadbeef");
    assert_eq!(hex_encode(&[0x00, 0x01, 0x10, 0xff]), "000110ff");
    assert_eq!(hex_encode(&[]), "");
}

#[test]
fn encoding_matches_reference_implementation() {
    let bytes: Vec<u8> = (0u8..=255).collect();
    assert_eq!(hex_encode(&bytes), hex::encode(&bytes));
}

#[test]
fn decoding_matches_reference_implementation() {
    let text = "00ff10a5c3";
    assert_eq!(hex_decode(text).unwrap(), hex::decode(text).unwrap());
}

#[test]
fn round_trip_through_encode_and_decode() {
    let bytes = vec![0x04, 0x79, 0xbe, 0x66, 0x7e, 0x00, 0xff];
    assert_eq!(hex_decode(&hex_encode(&bytes)).unwrap(), bytes);
}
