use razer_hid::commands::info::{
    build_get_device_mode, build_get_firmware_version, build_get_serial, build_set_device_mode, mode,
    parse_device_mode, parse_firmware_version, parse_serial, CLASS, CMD_GET_FIRMWARE, CMD_GET_MODE,
    CMD_GET_SERIAL, CMD_SET_MODE, SERIAL_LEN,
};

#[test]
fn get_serial_bytes() {
    let r = build_get_serial(0x3F);
    assert_eq!(r.command_class, CLASS);
    assert_eq!(r.command_id, CMD_GET_SERIAL);
    assert_eq!(r.data_size, SERIAL_LEN as u8);
    assert!(r.arguments[..SERIAL_LEN].iter().all(|&b| b == 0));
    assert!(r.crc_valid());
}

#[test]
fn parse_serial_trims_nul_padding() {
    let mut report = build_get_serial(0x3F);
    let serial = b"PM1234567890AB";
    report.arguments[..serial.len()].copy_from_slice(serial);
    assert_eq!(parse_serial(&report), "PM1234567890AB");
}

#[test]
fn parse_serial_full_length_no_nul() {
    let mut report = build_get_serial(0x3F);
    let serial = [b'A'; SERIAL_LEN];
    report.arguments[..SERIAL_LEN].copy_from_slice(&serial);
    assert_eq!(parse_serial(&report), "A".repeat(SERIAL_LEN));
}

#[test]
fn get_firmware_version_bytes_and_parse() {
    let mut r = build_get_firmware_version(0x3F);
    assert_eq!(r.command_id, CMD_GET_FIRMWARE);
    assert_eq!(r.data_size, 2);
    r.arguments[0] = 1;
    r.arguments[1] = 5;
    assert_eq!(parse_firmware_version(&r), (1, 5));
}

#[test]
fn set_device_mode_bytes() {
    let normal = build_set_device_mode(0x3F, mode::NORMAL);
    assert_eq!(normal.command_class, CLASS);
    assert_eq!(normal.command_id, CMD_SET_MODE);
    assert_eq!(normal.data_size, 2);
    assert_eq!(&normal.arguments[..2], &[0x00, 0x00]);

    let driver = build_set_device_mode(0x3F, mode::DRIVER);
    assert_eq!(&driver.arguments[..2], &[0x03, 0x00]);

    let invalid = build_set_device_mode(0x3F, 0x42);
    assert_eq!(&invalid.arguments[..2], &[0x00, 0x00]);
}

#[test]
fn get_device_mode_bytes_and_parse() {
    let mut r = build_get_device_mode(0x3F);
    assert_eq!(r.command_id, CMD_GET_MODE);
    assert_eq!(r.data_size, 2);
    r.arguments[0] = mode::DRIVER;
    r.arguments[1] = 0x00;
    assert_eq!(parse_device_mode(&r), (0x03, 0x00));
}

#[test]
fn parse_serial_stops_at_first_nul_and_ignores_bytes_past_the_field() {
    let mut report = build_get_serial(0x3F);
    report.arguments[..3].copy_from_slice(b"AB\0");
    report.arguments[3..6].copy_from_slice(b"XYZ");
    report.arguments[SERIAL_LEN] = b'Q';
    assert_eq!(parse_serial(&report), "AB");

    let mut full = build_get_serial(0x3F);
    full.arguments[..SERIAL_LEN].copy_from_slice(&[b'B'; SERIAL_LEN]);
    full.arguments[SERIAL_LEN] = b'Q';
    assert_eq!(parse_serial(&full), "B".repeat(SERIAL_LEN));
}

#[test]
fn parse_serial_replaces_invalid_utf8() {
    let mut report = build_get_serial(0x3F);
    report.arguments[..3].copy_from_slice(&[b'A', 0xFF, b'C']);
    assert_eq!(parse_serial(&report), "A\u{FFFD}C");
    let empty = build_get_serial(0x3F);
    assert_eq!(parse_serial(&empty), "");
}
