use razer_hid::cli::profile::{
    apply_zone_flag, default_speed, is_valid_name_char, parse_save_flags, prompt_accepts,
    validate_profile_name, DpiSettings, Profile, ProfileNameError, ProfileSettings, SaveFlagError,
    ZoneFlag, ZoneSettings, DEFAULT_SPEED,
};
use razer_hid::cli::store::{json_profile_stem, profile_file_name, profile_names, str_le};
use razer_hid::number::IntErrorKind;
use razer_hid::registry::Effect;

fn strings(v: &[&str]) -> Vec<String> {
    v.iter().map(|s| s.to_string()).collect()
}

fn white(led: u8) -> ZoneSettings {
    ZoneSettings { led_id: led, effect: Effect::Static, color: [255, 255, 255], brightness: 255, speed: 2 }
}

#[test]
fn names_are_trimmed_and_checked() {
    assert_eq!(validate_profile_name("  Gaming 1 "), Ok("Gaming 1".to_string()));
    assert_eq!(validate_profile_name("a-b_c"), Ok("a-b_c".to_string()));
    assert_eq!(validate_profile_name("   "), Err(ProfileNameError::Length));
    assert_eq!(validate_profile_name(&"x".repeat(65)), Err(ProfileNameError::Length));
    assert_eq!(validate_profile_name(&"x".repeat(64)), Ok("x".repeat(64)));
    assert_eq!(validate_profile_name("../etc"), Err(ProfileNameError::InvalidCharacters));
    assert_eq!(validate_profile_name("héllo"), Err(ProfileNameError::InvalidCharacters));
}

#[test]
fn prompt_characters() {
    assert!(is_valid_name_char('a') && is_valid_name_char('Z') && is_valid_name_char('7'));
    assert!(is_valid_name_char('-') && is_valid_name_char('_'));
    assert!(!is_valid_name_char(' ') && !is_valid_name_char('/'));
    assert!(prompt_accepts("abc", ' '));
    assert!(prompt_accepts("abc", 'd'));
    assert!(!prompt_accepts("abc", '.'));
    assert!(!prompt_accepts(&"x".repeat(64), 'd'));
}

#[test]
fn defaults() {
    assert_eq!(default_speed(), DEFAULT_SPEED);
    assert_eq!(DEFAULT_SPEED, 2);
    let p = Profile::default();
    assert!(p.name.is_empty());
    assert_eq!(p.settings, ProfileSettings::default());
    assert!(p.settings.lighting_zones.is_empty());
}

#[test]
fn zone_flags_without_led_go_to_the_global_zone() {
    let mut s = ProfileSettings::default();
    apply_zone_flag(&mut s, None, ZoneFlag::Rgb([1, 2, 3]));
    apply_zone_flag(&mut s, None, ZoneFlag::Brightness(10));
    assert_eq!(
        s.global_zone,
        Some(ZoneSettings { color: [1, 2, 3], brightness: 10, ..white(0x04) })
    );
    assert!(s.lighting_zones.is_empty());
}

#[test]
fn zone_flags_with_led_create_then_update_a_zone() {
    let mut s = ProfileSettings::default();
    apply_zone_flag(&mut s, Some(1), ZoneFlag::Effect(Effect::Spectrum));
    apply_zone_flag(&mut s, Some(5), ZoneFlag::Speed(4));
    apply_zone_flag(&mut s, Some(1), ZoneFlag::Brightness(7));
    assert_eq!(
        s.lighting_zones,
        vec![
            ZoneSettings { effect: Effect::Spectrum, brightness: 7, ..white(1) },
            ZoneSettings { speed: 4, ..white(5) },
        ]
    );
    assert_eq!(s.global_zone, None);
}

#[test]
fn save_flags_build_the_profile() {
    let args = strings(&[
        "Gaming", "--dpi", "1600", "1600", "--effect", "static", "--rgb", "255", "0", "128",
    ]);
    let req = parse_save_flags(&args).unwrap();
    assert_eq!(req.name, "Gaming");
    assert_eq!(req.pid, None);
    assert_eq!(req.settings.dpi, Some(DpiSettings { x: 1600, y: 1600 }));
    assert_eq!(req.settings.global_zone, Some(ZoneSettings { color: [255, 0, 128], ..white(0x04) }));
    assert_eq!(req.settings.polling_hz, None);
}

#[test]
fn save_flags_select_zones_and_the_pid() {
    let args = strings(&[
        "Work", "--pid", "0x005c", "--polling", "500", "--led", "1", "--brightness", "64", "--led",
        "4", "--speed", "3",
    ]);
    let req = parse_save_flags(&args).unwrap();
    assert_eq!(req.pid, Some(0x5C));
    assert_eq!(req.settings.polling_hz, Some(500));
    assert_eq!(
        req.settings.lighting_zones,
        vec![ZoneSettings { brightness: 64, ..white(1) }, ZoneSettings { speed: 3, ..white(4) }]
    );
}

#[test]
fn save_flag_errors() {
    assert_eq!(parse_save_flags(&[]), Err(SaveFlagError::MissingName));
    assert_eq!(
        parse_save_flags(&strings(&["n", "--dpi", "800"])),
        Err(SaveFlagError::MissingValue { index: 1 })
    );
    assert_eq!(
        parse_save_flags(&strings(&["n", "--polling", "fast"])),
        Err(SaveFlagError::InvalidNumber { index: 2, kind: IntErrorKind::InvalidDigit })
    );
    assert_eq!(
        parse_save_flags(&strings(&["n", "--effect", "disco"])),
        Err(SaveFlagError::UnknownEffect { index: 2 })
    );
    assert_eq!(
        parse_save_flags(&strings(&["n", "--colour", "red"])),
        Err(SaveFlagError::UnknownFlag { index: 1 })
    );
    assert_eq!(
        parse_save_flags(&strings(&["n", "--rgb", "1", "2", "300"])),
        Err(SaveFlagError::InvalidNumber { index: 4, kind: IntErrorKind::PosOverflow })
    );
}

#[test]
fn profile_files() {
    assert_eq!(profile_file_name(" Gaming "), Ok("Gaming.json".to_string()));
    assert_eq!(profile_file_name("a/b"), Err(ProfileNameError::InvalidCharacters));
    assert_eq!(json_profile_stem("Gaming.json"), Some("Gaming".to_string()));
    assert_eq!(json_profile_stem(".json"), None);
    assert_eq!(json_profile_stem("a.JSON"), None);
    assert_eq!(json_profile_stem("notes.txt"), None);
    assert_eq!(json_profile_stem("x.json.bak"), None);
}

#[test]
fn profile_names_are_sorted_json_stems() {
    let files = strings(&["work.json", "README.md", "Gaming.json", "a b.json", ".json", "work.json"]);
    assert_eq!(profile_names(&files), strings(&["Gaming", "a b", "work", "work"]));
    assert!(profile_names(&strings(&[])).is_empty());
}

#[test]
fn text_order_is_by_code_point() {
    assert!(str_le("Gaming", "gaming"));
    assert!(!str_le("gaming", "Gaming"));
    assert!(str_le("ab", "abc"));
    assert!(!str_le("abc", "ab"));
    assert!(str_le("same", "same"));
    assert!(str_le("", ""));
    assert!(str_le("z", "é"));
}

#[test]
fn validated_names_validate_unchanged() {
    for raw in ["  Gaming ", "a-b_c", "x y", "\tWork\n"] {
        let once = validate_profile_name(raw).unwrap();
        assert_eq!(validate_profile_name(&once), Ok(once.clone()));
    }
}

#[test]
fn saved_profiles_are_listed_under_their_name() {
    for raw in [" Gaming ", "a b", "-_-"] {
        let file = profile_file_name(raw).unwrap();
        assert_eq!(json_profile_stem(&file), validate_profile_name(raw).ok());
        assert_eq!(profile_names(&vec![file]), vec![validate_profile_name(raw).unwrap()]);
    }
}

#[test]
fn names_are_trimmed_of_unicode_whitespace_as_str_trim_does() {
    for raw in ["\u{3000}work\t\n", "\u{a0} work \u{2029}", "work", "\u{85}\u{2000}work\u{200a}"] {
        assert_eq!(validate_profile_name(raw), Ok(raw.trim().to_string()));
        assert_eq!(validate_profile_name(raw), Ok("work".to_string()));
    }
    assert_eq!(validate_profile_name("a \u{3000} b"), Err(ProfileNameError::InvalidCharacters));
    assert_eq!(validate_profile_name("\u{200b}work"), Err(ProfileNameError::InvalidCharacters));
    assert_eq!(validate_profile_name("\u{2028}\u{205f}"), Err(ProfileNameError::Length));
}
