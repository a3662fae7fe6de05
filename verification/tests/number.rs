use razer_hid::number::{parse_number_from, skip_leading_pair, IntErrorKind};

#[test]
fn decimal_digits_parse() {
    assert_eq!(parse_number_from(b"1600", 0, 10, 0xFFFF), Ok(1600));
    assert_eq!(parse_number_from(b"+42", 0, 10, 0xFF), Ok(42));
}

#[test]
fn hex_digits_parse_in_either_case() {
    assert_eq!(parse_number_from(b"5c", 0, 16, 0xFFFF), Ok(0x5C));
    assert_eq!(parse_number_from(b"005C", 0, 16, 0xFFFF), Ok(0x5C));
    assert_eq!(parse_number_from(b"fF", 0, 16, 0xFF), Ok(0xFF));
}

#[test]
fn parse_starts_at_offset() {
    assert_eq!(parse_number_from(b"0x84", 2, 16, 0xFFFF), Ok(0x84));
}

#[test]
fn empty_input_is_refused() {
    assert_eq!(parse_number_from(b"", 0, 10, 0xFF), Err(IntErrorKind::Empty));
    assert_eq!(parse_number_from(b"0x", 2, 16, 0xFF), Err(IntErrorKind::Empty));
}

#[test]
fn sign_alone_and_bad_digits_are_invalid() {
    assert_eq!(parse_number_from(b"+", 0, 10, 0xFF), Err(IntErrorKind::InvalidDigit));
    assert_eq!(parse_number_from(b"12a", 0, 10, 0xFF), Err(IntErrorKind::InvalidDigit));
    assert_eq!(parse_number_from(b"-1", 0, 10, 0xFF), Err(IntErrorKind::InvalidDigit));
    assert_eq!(parse_number_from(b"g", 0, 16, 0xFF), Err(IntErrorKind::InvalidDigit));
}

#[test]
fn values_past_the_maximum_overflow() {
    assert_eq!(parse_number_from(b"256", 0, 10, 0xFF), Err(IntErrorKind::PosOverflow));
    assert_eq!(parse_number_from(b"65536", 0, 10, 0xFFFF), Err(IntErrorKind::PosOverflow));
    assert_eq!(parse_number_from(b"255", 0, 10, 0xFF), Ok(255));
    assert_eq!(parse_number_from(b"65535", 0, 10, 0xFFFF), Ok(65535));
}

#[test]
fn leading_pairs_are_skipped_repeatedly() {
    assert_eq!(skip_leading_pair(b"0x0x84", 0, b'0', b'x'), 4);
    assert_eq!(skip_leading_pair(b"0X84", 0, b'0', b'x'), 0);
    assert_eq!(skip_leading_pair(b"0", 0, b'0', b'x'), 0);
}
