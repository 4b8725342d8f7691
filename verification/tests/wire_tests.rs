use enode_url::errors::ConversionError;
use enode_url::wire::decode_public_key;

#[test]
fn parses_type_and_data_fields() {
    let bytes = [0x08, 0x01, 0x12, 0x03, 0xaa, 0xbb, 0xcc];
    let (ty, data) = decode_public_key(&bytes).unwrap();
    assert_eq!(ty, 1);
    assert_eq!(data, vec![0xaa, 0xbb, 0xcc]);
}

#[test]
fn fields_default_when_absent() {
    let (ty, data) = decode_public_key(&[]).unwrap();
    assert_eq!(ty, 0);
    assert_eq!(data, Vec::<u8>::new());

    let (ty, data) = decode_public_key(&[0x12, 0x01, 0x99]).unwrap();
    assert_eq!(ty, 0);
    assert_eq!(data, vec![0x99]);
}

#[test]
fn a_later_field_occurrence_overwrites_an_earlier_one() {
    let (ty, data) = decode_public_key(&[0x08, 0x01, 0x08, 0x02, 0x12, 0x01, 0x05]).unwrap();
    assert_eq!(ty, 2);
    assert_eq!(data, vec![0x05]);
}

#[test]
fn skips_unknown_fields_by_wire_type() {
    // field 3 varint, field 4 eight bytes, field 5 four bytes, field 6 bytes
    let bytes = [
        0x18, 0x2a, // field 3, varint
        0x21, 1, 2, 3, 4, 5, 6, 7, 8, // field 4, eight bytes
        0x2d, 1, 2, 3, 4, // field 5, four bytes
        0x32, 0x02, 9, 9, // field 6, length-delimited
        0x08, 0x02, // field 1: type 2
        0x12, 0x01, 0x7f, // field 2: one data byte
    ];
    let (ty, data) = decode_public_key(&bytes).unwrap();
    assert_eq!(ty, 2);
    assert_eq!(data, vec![0x7f]);
}

#[test]
fn skips_an_identifier_framing_prefix() {
    // The identifier's own two-byte prefix reads as a field-0 varint and
    // is skipped, leaving the key message itself.
    let bytes = [0x00, 0x08, 0x08, 0x02, 0x12, 0x02, 0xab, 0xcd];
    let (ty, data) = decode_public_key(&bytes).unwrap();
    assert_eq!(ty, 2);
    assert_eq!(data, vec![0xab, 0xcd]);
}

#[test]
fn rejects_truncated_framing() {
    assert_eq!(decode_public_key(&[0x08]), Err(ConversionError::KeyDecode));
    assert_eq!(
        decode_public_key(&[0x12, 0x05, 0x01, 0x02]),
        Err(ConversionError::KeyDecode)
    );
    assert_eq!(
        decode_public_key(&[0x21, 1, 2, 3]),
        Err(ConversionError::KeyDecode)
    );
}

#[test]
fn rejects_bad_wire_types() {
    // wire types 3, 4, 6 and 7 are malformed
    assert_eq!(decode_public_key(&[0x1b]), Err(ConversionError::KeyDecode));
    assert_eq!(decode_public_key(&[0x1c]), Err(ConversionError::KeyDecode));
    assert_eq!(decode_public_key(&[0x1e]), Err(ConversionError::KeyDecode));
    assert_eq!(decode_public_key(&[0x1f]), Err(ConversionError::KeyDecode));
}

#[test]
fn reads_ten_byte_varints_that_fit_64_bits() {
    // the type number u64::MAX takes all ten varint bytes
    let bytes = [0x08, 0xff, 0xff, 0xff, 0xff, 0xff, 0xff, 0xff, 0xff, 0xff, 0x01];
    let (ty, data) = decode_public_key(&bytes).unwrap();
    assert_eq!(ty, u64::MAX);
    assert_eq!(data, Vec::<u8>::new());

    // a zero padded out to ten bytes is still zero
    let bytes = [
        0x08, 0x80, 0x80, 0x80, 0x80, 0x80, 0x80, 0x80, 0x80, 0x80, 0x00,
    ];
    let (ty, _) = decode_public_key(&bytes).unwrap();
    assert_eq!(ty, 0);
}

#[test]
fn rejects_overlong_varints() {
    // eleven bytes are always malformed
    let bytes = [
        0x08, 0x80, 0x80, 0x80, 0x80, 0x80, 0x80, 0x80, 0x80, 0x80, 0x80, 0x00,
    ];
    assert_eq!(decode_public_key(&bytes), Err(ConversionError::KeyDecode));

    // ten bytes whose value overflows 64 bits are malformed too
    let bytes = [0x08, 0xff, 0xff, 0xff, 0xff, 0xff, 0xff, 0xff, 0xff, 0xff, 0x02];
    assert_eq!(decode_public_key(&bytes), Err(ConversionError::KeyDecode));
}

#[test]
fn reads_multi_byte_varints() {
    // type number 300 = 0xac 0x02 as a varint
    let (ty, _) = decode_public_key(&[0x08, 0xac, 0x02]).unwrap();
    assert_eq!(ty, 300);
}
