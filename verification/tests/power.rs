use razer_hid::commands::power::{
    build_get_battery_level, build_get_charging_status, build_get_idle_time,
    build_get_low_battery_threshold, build_set_idle_time, build_set_low_battery_threshold,
    parse_battery_level, parse_charging_status, parse_idle_time, parse_low_battery_threshold, CLASS,
    CMD_GET_CHARGING, CMD_GET_IDLE_TIME, CMD_GET_LEVEL, CMD_GET_LOW_BATTERY_THRESHOLD,
    CMD_SET_IDLE_TIME, CMD_SET_LOW_BATTERY_THRESHOLD,
};

#[test]
fn get_battery_level_bytes_and_parse() {
    let r = build_get_battery_level(0x3F);
    assert_eq!(r.command_class, CLASS);
    assert_eq!(r.command_id, CMD_GET_LEVEL);
    assert_eq!(r.data_size, 2);
    assert!(r.crc_valid());

    let mut response = r;
    response.arguments[1] = 255;
    assert_eq!(parse_battery_level(&response), 100);
    response.arguments[1] = 0;
    assert_eq!(parse_battery_level(&response), 0);
    response.arguments[1] = 128;
    assert_eq!(parse_battery_level(&response), 50);
}

#[test]
fn get_charging_status_bytes_and_parse() {
    let mut r = build_get_charging_status(0x3F);
    assert_eq!(r.command_id, CMD_GET_CHARGING);
    assert_eq!(r.data_size, 2);
    r.arguments[1] = 1;
    assert!(parse_charging_status(&r));
    r.arguments[1] = 0;
    assert!(!parse_charging_status(&r));
}

#[test]
fn low_battery_threshold_bytes_and_clamp() {
    let r = build_set_low_battery_threshold(0x3F, 0x20);
    assert_eq!(r.command_id, CMD_SET_LOW_BATTERY_THRESHOLD);
    assert_eq!(r.data_size, 1);
    assert_eq!(r.arguments[0], 0x20);

    assert_eq!(build_set_low_battery_threshold(0x3F, 0x00).arguments[0], 0x0C);
    assert_eq!(build_set_low_battery_threshold(0x3F, 0xFF).arguments[0], 0x3F);

    let get = build_get_low_battery_threshold(0x3F);
    assert_eq!(get.command_id, CMD_GET_LOW_BATTERY_THRESHOLD);
    assert_eq!(get.data_size, 1);
}

#[test]
fn idle_time_bytes_and_clamp() {
    let r = build_set_idle_time(0x3F, 300);
    assert_eq!(r.command_id, CMD_SET_IDLE_TIME);
    assert_eq!(r.data_size, 2);
    assert_eq!(&r.arguments[..2], &[0x01, 0x2C]);

    assert_eq!(&build_set_idle_time(0x3F, 0).arguments[..2], &[0x00, 0x3C]);
    assert_eq!(
        &build_set_idle_time(0x3F, 5000).arguments[..2],
        &[0x03, 0x84]
    );

    let mut get = build_get_idle_time(0x3F);
    assert_eq!(get.command_id, CMD_GET_IDLE_TIME);
    get.arguments[0] = 0x01;
    get.arguments[1] = 0x2C;
    assert_eq!(parse_idle_time(&get), 300);
}

#[test]
fn battery_percentage_formula_on_every_level() {
    let mut r = build_get_battery_level(0x3F);
    for raw in 0u8..=255 {
        r.arguments[1] = raw;
        let p = parse_battery_level(&r);
        assert_eq!(p as u32, raw as u32 * 100 / 255);
        assert!(p <= 100);
    }
    r.arguments[1] = 51;
    assert_eq!(parse_battery_level(&r), 20);
}

#[test]
fn idle_time_and_threshold_read_back() {
    for secs in [0u16, 59, 60, 61, 600, 900, 901, u16::MAX] {
        let r = build_set_idle_time(0x3F, secs);
        assert_eq!(parse_idle_time(&r), secs.clamp(60, 900));
    }
    let r = build_set_low_battery_threshold(0x3F, 0x0B);
    assert_eq!(parse_low_battery_threshold(&r), 0x0C);
}
