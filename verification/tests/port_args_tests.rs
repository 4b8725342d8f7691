use enode_url::{parse_port, resolve_args, ConversionError};

#[test]
fn accepts_ports_in_range() {
    assert_eq!(parse_port("1"), Ok(1));
    assert_eq!(parse_port("4001"), Ok(4001));
    assert_eq!(parse_port("30303"), Ok(30303));
    assert_eq!(parse_port("65535"), Ok(65535));
}

#[test]
fn accepts_leading_zeros() {
    assert_eq!(parse_port("04001"), Ok(4001));
    assert_eq!(parse_port("0000000000000001"), Ok(1));
}

#[test]
fn rejects_zero_and_out_of_range_ports() {
    assert_eq!(parse_port("0"), Err(ConversionError::InvalidPort));
    assert_eq!(parse_port("65536"), Err(ConversionError::InvalidPort));
    assert_eq!(parse_port("99999999999999999999"), Err(ConversionError::InvalidPort));
}

#[test]
fn rejects_non_numeric_ports() {
    assert_eq!(parse_port(""), Err(ConversionError::InvalidPort));
    assert_eq!(parse_port("abc"), Err(ConversionError::InvalidPort));
    assert_eq!(parse_port("40o1"), Err(ConversionError::InvalidPort));
    assert_eq!(parse_port("-1"), Err(ConversionError::InvalidPort));
    assert_eq!(parse_port("+1"), Err(ConversionError::InvalidPort));
    assert_eq!(parse_port(" 1"), Err(ConversionError::InvalidPort));
}

#[test]
fn missing_identifier_is_a_usage_error() {
    assert_eq!(
        resolve_args(None, None, None),
        Err(ConversionError::Usage)
    );
}

#[test]
fn omitted_address_and_port_take_defaults() {
    let (id, address, port) =
        resolve_args(Some("16Uiu2HAm".to_string()), None, None).unwrap();
    assert_eq!(id, "16Uiu2HAm");
    assert_eq!(address, "127.0.0.1");
    assert_eq!(port, "4001");
}

#[test]
fn given_address_and_port_pass_through() {
    let (_, address, port) = resolve_args(
        Some("x".to_string()),
        Some("10.0.0.5".to_string()),
        Some("30303".to_string()),
    )
    .unwrap();
    assert_eq!(address, "10.0.0.5");
    assert_eq!(port, "30303");
}

#[test]
fn bad_port_argument_is_rejected_before_conversion() {
    assert_eq!(
        resolve_args(Some("x".to_string()), None, Some("0".to_string())),
        Err(ConversionError::InvalidPort)
    );
    assert_eq!(
        resolve_args(Some("x".to_string()), None, Some("port".to_string())),
        Err(ConversionError::InvalidPort)
    );
}

#[test]
fn port_error_message_names_the_range() {
    let e = parse_port("70000").unwrap_err();
    assert_eq!(e.message(), "Port must be a valid number between 1-65535");
}
