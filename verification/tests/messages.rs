use razer_hid::cli::args::{BrightnessArgsError, DpiArgError, PidFlagError, RgbArgError};
use razer_hid::cli::command::{CommandError, ProfileCommand};
use razer_hid::cli::detect::DetectError;
use razer_hid::cli::messages::{
    command_error, detect_error, hex_id_error, int_error, pid_flag_error, profile_name_error, save_flag_error,
    save_usage,
};
use razer_hid::cli::profile::{ProfileNameError, SaveFlagError};
use razer_hid::number::IntErrorKind;

fn strings(v: &[&str]) -> Vec<String> {
    v.iter().map(|s| s.to_string()).collect()
}

#[test]
fn int_errors_read_as_std_words_them() {
    assert_eq!(int_error(IntErrorKind::Empty), "cannot parse integer from empty string");
    assert_eq!(int_error(IntErrorKind::InvalidDigit), "invalid digit found in string");
    assert_eq!(int_error(IntErrorKind::PosOverflow), "number too large to fit in target type");
    assert_eq!(int_error(IntErrorKind::InvalidDigit), "zz".parse::<u8>().unwrap_err().to_string());
}

#[test]
fn a_bad_hex_id_is_quoted_in_its_message() {
    assert_eq!(
        hex_id_error("zz", IntErrorKind::InvalidDigit),
        "invalid hex id \"zz\": invalid digit found in string"
    );
    assert_eq!(
        hex_id_error("a\"b", IntErrorKind::Empty),
        "invalid hex id \"a\\\"b\": cannot parse integer from empty string"
    );
}

#[test]
fn a_bad_pid_flag_names_its_value() {
    let args = strings(&["dpi", "--pid", "xyz"]);
    let e = PidFlagError { index: 2, kind: IntErrorKind::InvalidDigit };
    assert_eq!(pid_flag_error(&args, &e), "invalid hex id \"xyz\": invalid digit found in string");
}

#[test]
fn detection_failures_read_as_the_tool_words_them() {
    assert_eq!(
        detect_error(&DetectError::Unsupported { pid: 0x1234 }),
        "Razer device connected but PID 0x1234 is not supported."
    );
    assert_eq!(
        detect_error(&DetectError::NoDevice),
        "no Razer device connected. See if any HID-compliant mice are visible in device manager"
    );
    assert_eq!(
        detect_error(&DetectError::Multiple { pids: vec![0x007a, 0x0b00] }),
        "multiple Razer devices connected (0x007a, 0x0b00). Use --pid to select one."
    );
}

#[test]
fn refused_profile_names_say_why() {
    assert_eq!(profile_name_error(ProfileNameError::Length), "profile name must be 1-64 chars");
    assert_eq!(
        profile_name_error(ProfileNameError::InvalidCharacters),
        "profile name contains invalid characters (allowed: alnum, space, -, _)"
    );
}

#[test]
fn refused_command_lines_say_why() {
    let none: Vec<String> = Vec::new();
    assert_eq!(command_error("frob", &none, &none, &CommandError::UnknownCommand), "unknown command \"frob\"");
    assert_eq!(command_error("dpi", &none, &none, &CommandError::Dpi(DpiArgError::Missing)), "dpi requires <x>");
    assert_eq!(
        command_error("dpi", &none, &none, &CommandError::Dpi(DpiArgError::InvalidY(IntErrorKind::PosOverflow))),
        "invalid y: number too large to fit in target type"
    );
    let vals = strings(&["0", "800", "x"]);
    assert_eq!(command_error("dpi-stages", &vals, &vals, &CommandError::StageValue { index: 2 }), "invalid u16: x");
    let rgb = CommandError::Rgb(RgbArgError::InvalidChannel { channel: 1, kind: IntErrorKind::PosOverflow });
    assert_eq!(command_error("color", &none, &none, &rgb), "invalid g channel: number too large to fit in target type");
    assert_eq!(
        command_error("color", &none, &none, &CommandError::Rgb(RgbArgError::TooFew)),
        "rgb requires 3 channels"
    );
    let leds = strings(&["0", "0", "0", "q"]);
    let led = CommandError::Led { index: 3, kind: IntErrorKind::InvalidDigit };
    assert_eq!(command_error("color", &leds, &leds, &led), "invalid hex id \"q\": invalid digit found in string");
    let fx = strings(&["sparkle"]);
    assert_eq!(command_error("effect", &fx, &fx, &CommandError::UnknownEffect), "unknown effect \"sparkle\"");
    assert_eq!(
        command_error("brightness", &none, &none, &CommandError::Brightness(BrightnessArgsError::InvalidLed)),
        "invalid LED value. Usage: --led <id>"
    );
    assert_eq!(
        command_error("profile", &none, &none, &CommandError::MissingProfileName(ProfileCommand::Show)),
        "profile show requires <name>"
    );
    let sub = strings(&["bogus"]);
    assert_eq!(
        command_error("profile", &sub, &sub, &CommandError::UnknownProfileSubcommand),
        "unknown profile subcommand \"bogus\""
    );
}

#[test]
fn refused_save_flags_say_why() {
    let args = strings(&["work"]);
    assert_eq!(save_flag_error(&args, &SaveFlagError::MissingName), save_usage());
    assert!(save_usage().starts_with("usage: profile save <name>"));
    let dpi = strings(&["work", "--dpi"]);
    assert_eq!(save_flag_error(&dpi, &SaveFlagError::MissingValue { index: 1 }), "--dpi requires <x> <y>");
    let pid = strings(&["work", "-p"]);
    assert_eq!(save_flag_error(&pid, &SaveFlagError::MissingValue { index: 1 }), "--pid requires a value");
    let other = strings(&["work", "--frob"]);
    assert_eq!(save_flag_error(&other, &SaveFlagError::MissingValue { index: 1 }), "--frob requires a value");
    let led = strings(&["work", "--led", "zz"]);
    let bad = SaveFlagError::InvalidNumber { index: 2, kind: IntErrorKind::InvalidDigit };
    assert_eq!(save_flag_error(&led, &bad), "invalid hex id \"zz\": invalid digit found in string");
    let polling = strings(&["work", "--polling", "zz"]);
    assert_eq!(save_flag_error(&polling, &bad), "invalid digit found in string");
    let flag = strings(&["work", "--x"]);
    assert_eq!(save_flag_error(&flag, &SaveFlagError::UnknownFlag { index: 1 }), "unknown flag \"--x\"");
    let fx = strings(&["work", "--effect", "sparkle"]);
    assert_eq!(save_flag_error(&fx, &SaveFlagError::UnknownEffect { index: 2 }), "unknown effect \"sparkle\"");
}
