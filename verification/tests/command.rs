use razer_hid::cli::args::{BrightnessArgsError, DpiArgError, RgbArgError};
use razer_hid::cli::command::{parse_command, Command, CommandError, ProfileCommand};
use razer_hid::number::IntErrorKind;
use razer_hid::registry::Effect;

fn strings(v: &[&str]) -> Vec<String> {
    v.iter().map(|s| s.to_string()).collect()
}

fn parse(cmd: &str, vals: &[&str]) -> Result<Command, CommandError> {
    let v = strings(vals);
    parse_command(cmd, &v, &v)
}

#[test]
fn simple_commands() {
    assert_eq!(parse("list", &[]), Ok(Command::List));
    assert_eq!(parse("info", &[]), Ok(Command::Info));
    assert_eq!(parse("battery", &[]), Ok(Command::Battery));
    assert_eq!(parse("reboot", &[]), Err(CommandError::UnknownCommand));
}

#[test]
fn dpi_reads_without_values_and_sets_with_them() {
    assert_eq!(parse("dpi", &[]), Ok(Command::GetDpi));
    assert_eq!(parse("dpi", &["1600"]), Ok(Command::SetDpi { x: 1600, y: 1600 }));
    assert_eq!(parse("dpi", &["1600", "800"]), Ok(Command::SetDpi { x: 1600, y: 800 }));
    assert_eq!(
        parse("dpi", &["fast"]),
        Err(CommandError::Dpi(DpiArgError::InvalidX(IntErrorKind::InvalidDigit)))
    );
}

#[test]
fn dpi_stages_values() {
    assert_eq!(parse("dpi-stages", &[]), Ok(Command::GetDpiStages));
    assert_eq!(
        parse("dpi-stages", &["1", "800", "1600", "3200"]),
        Ok(Command::SetDpiStages { active: 1, values: vec![800, 1600, 3200] })
    );
    assert_eq!(
        parse("dpi-stages", &["x", "800"]),
        Err(CommandError::ActiveIndex(IntErrorKind::InvalidDigit))
    );
    assert_eq!(
        parse("dpi-stages", &["0", "800", "big"]),
        Err(CommandError::StageValue { index: 2 })
    );
}

#[test]
fn color_takes_rgb_and_an_optional_led() {
    assert_eq!(parse("color", &["255", "0", "128"]), Ok(Command::Color { rgb: [255, 0, 128], led: 0x04 }));
    assert_eq!(parse("color", &["1", "2", "3", "0x01"]), Ok(Command::Color { rgb: [1, 2, 3], led: 0x01 }));
    assert_eq!(parse("color", &["1", "2"]), Err(CommandError::Rgb(RgbArgError::TooFew)));
    assert_eq!(
        parse("color", &["1", "2", "3", "q"]),
        Err(CommandError::Led { index: 3, kind: IntErrorKind::InvalidDigit })
    );
}

#[test]
fn effect_names_colors_and_leds() {
    assert_eq!(
        parse("effect", &["spectrum"]),
        Ok(Command::Effect { effect: Effect::Spectrum, rgb: [0, 255, 0], led: None })
    );
    assert_eq!(
        parse("effect", &["static", "255", "0", "0", "--led", "5"]),
        Ok(Command::Effect { effect: Effect::Static, rgb: [255, 0, 0], led: Some(5) })
    );
    assert_eq!(
        parse("effect", &["wave", "--led", "1"]),
        Ok(Command::Effect { effect: Effect::Wave, rgb: [0, 255, 0], led: Some(1) })
    );
    assert_eq!(
        parse("effect", &["spectrum", "--led", "0xZZ"]),
        Err(CommandError::Led { index: 2, kind: IntErrorKind::InvalidDigit })
    );
    assert_eq!(parse("effect", &[]), Err(CommandError::MissingEffect));
    assert_eq!(parse("effect", &["disco"]), Err(CommandError::UnknownEffect));
    // With three values after the name they are the color, --led or not.
    assert_eq!(
        parse("effect", &["static", "--led", "5", "x"]),
        Err(CommandError::Rgb(RgbArgError::InvalidChannel { channel: 0, kind: IntErrorKind::InvalidDigit }))
    );
}

#[test]
fn brightness_reads_or_sets() {
    assert_eq!(parse("brightness", &[]), Ok(Command::GetBrightness { led: 0x04 }));
    assert_eq!(parse("brightness", &["--led", "1"]), Ok(Command::GetBrightness { led: 0x01 }));
    assert_eq!(parse("brightness", &["200"]), Ok(Command::SetBrightness { value: 200, led: 0x04 }));
    assert_eq!(
        parse("brightness", &["999"]),
        Err(CommandError::Brightness(BrightnessArgsError::InvalidBrightness))
    );
}

#[test]
fn polling_reads_or_sets() {
    assert_eq!(parse("polling", &[]), Ok(Command::GetPolling));
    assert_eq!(parse("polling", &["1000"]), Ok(Command::SetPolling { hz: 1000 }));
    assert_eq!(parse("polling", &["1k"]), Err(CommandError::PollingRate(IntErrorKind::InvalidDigit)));
}

#[test]
fn profile_subcommands() {
    let none: Vec<String> = Vec::new();
    assert_eq!(parse_command("profile", &none, &none), Ok(Command::Profile(ProfileCommand::Help)));
    assert_eq!(parse("profile", &["save", "Gaming"]), Ok(Command::Profile(ProfileCommand::Save)));
    assert_eq!(parse("profile", &["save"]), Ok(Command::Profile(ProfileCommand::Save)));
    assert_eq!(parse("profile", &["list"]), Ok(Command::Profile(ProfileCommand::List)));
    assert_eq!(parse("profile", &["help"]), Ok(Command::Profile(ProfileCommand::Help)));
    assert_eq!(parse("profile", &[""]), Ok(Command::Profile(ProfileCommand::Help)));
    assert_eq!(parse("profile", &["apply", "Gaming"]), Ok(Command::Profile(ProfileCommand::Apply)));
    assert_eq!(parse("profile", &["show", "x"]), Ok(Command::Profile(ProfileCommand::Show)));
    assert_eq!(parse("profile", &["delete", "x"]), Ok(Command::Profile(ProfileCommand::Delete)));
    assert_eq!(
        parse("profile", &["apply"]),
        Err(CommandError::MissingProfileName(ProfileCommand::Apply))
    );
    assert_eq!(parse("profile", &["rename", "x"]), Err(CommandError::UnknownProfileSubcommand));
}

#[test]
fn profile_reads_the_raw_arguments() {
    // The --pid flag is stripped from the values but not from what `profile` reads.
    let vals = strings(&[]);
    let rest = strings(&["--pid", "5c"]);
    assert_eq!(parse_command("profile", &vals, &rest), Err(CommandError::UnknownProfileSubcommand));
    assert_eq!(parse_command("dpi", &vals, &rest), Ok(Command::GetDpi));
}
