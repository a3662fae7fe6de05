use razer_hid::cli::args::{
    brightness_percent, parse_brightness_args, parse_dpi, parse_hex_to_u16, parse_hex_to_u8,
    parse_led, parse_rgb, parse_u16, parse_u8, split_pid_flag, to_vec_u16, BrightnessArgsError,
    DpiArgError, PidFlagError, RgbArgError,
};
use razer_hid::number::IntErrorKind;

fn strings(v: &[&str]) -> Vec<String> {
    v.iter().map(|s| s.to_string()).collect()
}

#[test]
fn pid_forms_all_parse() {
    assert_eq!(parse_hex_to_u16("0x005c"), Ok(0x5C));
    assert_eq!(parse_hex_to_u16("005C"), Ok(0x5C));
    assert_eq!(parse_hex_to_u16("5c"), Ok(0x5C));
    assert_eq!(parse_hex_to_u16("0X5C"), Ok(0x5C));
    assert_eq!(parse_hex_to_u16("0x0x5c"), Ok(0x5C));
}

#[test]
fn bad_hex_ids_are_refused() {
    assert_eq!(parse_hex_to_u16("0x"), Err(IntErrorKind::Empty));
    assert_eq!(parse_hex_to_u16("xyz"), Err(IntErrorKind::InvalidDigit));
    assert_eq!(parse_hex_to_u8("0x100"), Err(IntErrorKind::PosOverflow));
    assert_eq!(parse_hex_to_u8("0x04"), Ok(4));
}

#[test]
fn decimal_values_parse() {
    assert_eq!(parse_u16("1600"), Ok(1600));
    assert_eq!(parse_u16("70000"), Err(IntErrorKind::PosOverflow));
    assert_eq!(parse_u8("255"), Ok(255));
    assert_eq!(parse_u8("-1"), Err(IntErrorKind::InvalidDigit));
    assert_eq!(parse_u8(""), Err(IntErrorKind::Empty));
}

#[test]
fn led_defaults_to_logo() {
    assert_eq!(parse_led(None), Ok(0x04));
    let one = "0x01".to_string();
    assert_eq!(parse_led(Some(&one)), Ok(0x01));
    let bad = "zz".to_string();
    assert_eq!(parse_led(Some(&bad)), Err(IntErrorKind::InvalidDigit));
}

#[test]
fn brightness_percentages_round_down() {
    assert_eq!(brightness_percent(0), 0);
    assert_eq!(brightness_percent(128), 50);
    assert_eq!(brightness_percent(254), 99);
    assert_eq!(brightness_percent(255), 100);
}

#[test]
fn stage_values_parse_from_an_offset() {
    let vals = strings(&["1", "800", "1600"]);
    assert_eq!(to_vec_u16(&vals, 1), Ok(vec![800, 1600]));
    let bad = strings(&["1", "800", "x", "y"]);
    assert_eq!(to_vec_u16(&bad, 1), Err(2));
    assert_eq!(to_vec_u16(&vals, 3), Ok(vec![]));
}

#[test]
fn brightness_args_in_any_order() {
    assert_eq!(parse_brightness_args(&strings(&["128"])), Ok((Some(128), 0x04)));
    assert_eq!(parse_brightness_args(&strings(&["--led", "1", "200"])), Ok((Some(200), 0x01)));
    assert_eq!(parse_brightness_args(&strings(&[])), Ok((None, 0x04)));
    assert_eq!(parse_brightness_args(&strings(&["10", "20"])), Ok((Some(20), 0x04)));
    // A trailing --led without a value falls back to the logo LED.
    assert_eq!(parse_brightness_args(&strings(&["--led"])), Ok((None, 0x04)));
}

#[test]
fn brightness_args_errors() {
    assert_eq!(
        parse_brightness_args(&strings(&["300"])),
        Err(BrightnessArgsError::InvalidBrightness)
    );
    assert_eq!(
        parse_brightness_args(&strings(&["--led", "zz"])),
        Err(BrightnessArgsError::InvalidLed)
    );
}

#[test]
fn dpi_y_defaults_to_x() {
    assert_eq!(parse_dpi(&strings(&["1600"])), Ok((1600, 1600)));
    assert_eq!(parse_dpi(&strings(&["1600", "800"])), Ok((1600, 800)));
    assert_eq!(parse_dpi(&strings(&[])), Err(DpiArgError::Missing));
    assert_eq!(parse_dpi(&strings(&["x"])), Err(DpiArgError::InvalidX(IntErrorKind::InvalidDigit)));
    assert_eq!(
        parse_dpi(&strings(&["800", "99999"])),
        Err(DpiArgError::InvalidY(IntErrorKind::PosOverflow))
    );
}

#[test]
fn rgb_needs_three_bytes() {
    assert_eq!(parse_rgb(&strings(&["255", "0", "128"])), Ok([255, 0, 128]));
    assert_eq!(parse_rgb(&strings(&["255", "0", "128", "4"])), Ok([255, 0, 128]));
    assert_eq!(parse_rgb(&strings(&["255", "0"])), Err(RgbArgError::TooFew));
    assert_eq!(
        parse_rgb(&strings(&["255", "256", "0"])),
        Err(RgbArgError::InvalidChannel { channel: 1, kind: IntErrorKind::PosOverflow })
    );
}

#[test]
fn pid_flag_is_taken_out() {
    let (pid, rest) = split_pid_flag(&strings(&["1600", "--pid", "0x005C", "800"])).unwrap();
    assert_eq!(pid, Some(0x5C));
    assert_eq!(rest, strings(&["1600", "800"]));
    let (pid, rest) = split_pid_flag(&strings(&["-p", "84", "-p", "5c"])).unwrap();
    assert_eq!(pid, Some(0x5C));
    assert!(rest.is_empty());
    let (pid, rest) = split_pid_flag(&strings(&["list", "--pid"])).unwrap();
    assert_eq!(pid, None);
    assert_eq!(rest, strings(&["list", "--pid"]));
    assert_eq!(
        split_pid_flag(&strings(&["--pid", "zz"])),
        Err(PidFlagError { index: 1, kind: IntErrorKind::InvalidDigit })
    );
}
