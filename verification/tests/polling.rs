use razer_hid::commands::polling::{
    build_get_polling_rate, build_get_polling_rate_v2, build_set_polling_rate,
    build_set_polling_rate_v2, code_v1, code_v2, hz_from_code_v1, hz_from_code_v2,
    parse_polling_rate, parse_polling_rate_v2, CLASS, CMD_GET, CMD_GET_V2, CMD_SET, CMD_SET_V2,
};

#[test]
fn set_polling_rate_bytes() {
    let r = build_set_polling_rate(0x3F, 1000);
    assert_eq!(r.command_class, CLASS);
    assert_eq!(r.command_id, CMD_SET);
    assert_eq!(r.data_size, 1);
    assert_eq!(r.arguments[0], 0x01);
    assert!(r.crc_valid());

    assert_eq!(build_set_polling_rate(0x3F, 500).arguments[0], 0x02);
    assert_eq!(build_set_polling_rate(0x3F, 125).arguments[0], 0x08);
    assert_eq!(build_set_polling_rate(0x3F, 2222).arguments[0], 0x02);
}

#[test]
fn get_polling_rate_bytes() {
    let r = build_get_polling_rate(0x3F);
    assert_eq!(r.command_id, CMD_GET);
    assert_eq!(r.data_size, 1);
    assert_eq!(r.arguments[0], 0);
}

#[test]
fn parse_polling_rate_round_trip() {
    let mut report = build_get_polling_rate(0x3F);
    report.arguments[0] = 0x08;
    assert_eq!(parse_polling_rate(&report), 0x08);
    assert_eq!(hz_from_code_v1(0x08), Some(125));
    assert_eq!(hz_from_code_v1(0xEE), None);
}

#[test]
fn set_polling_rate_v2_bytes() {
    let r = build_set_polling_rate_v2(0x3F, 8000, 0x00);
    assert_eq!(r.command_class, CLASS);
    assert_eq!(r.command_id, CMD_SET_V2);
    assert_eq!(r.data_size, 2);
    assert_eq!(&r.arguments[..2], &[0x00, 0x01]);

    assert_eq!(build_set_polling_rate_v2(0x3F, 125, 0x01).arguments[1], 0x40);
    assert_eq!(build_set_polling_rate_v2(0x3F, 3, 0x00).arguments[1], 0x10);
}

#[test]
fn get_polling_rate_v2_bytes() {
    let r = build_get_polling_rate_v2(0x3F);
    assert_eq!(r.command_id, CMD_GET_V2);
    assert_eq!(r.data_size, 1);
}

#[test]
fn parse_polling_rate_v2_round_trip() {
    let mut report = build_get_polling_rate_v2(0x3F);
    report.arguments[0] = 0x04;
    assert_eq!(parse_polling_rate_v2(&report), 0x04);
    assert_eq!(hz_from_code_v2(0x04), Some(2000));
}

#[test]
fn code_tables_round_trip() {
    for hz in [125u16, 500, 1000] {
        assert_eq!(hz_from_code_v1(code_v1(hz)), Some(hz));
    }
    assert_eq!(hz_from_code_v1(code_v1(7)), Some(500));
    for hz in [125u16, 250, 500, 1000, 2000, 4000, 8000] {
        assert_eq!(hz_from_code_v2(code_v2(hz)), Some(hz));
    }
    assert_eq!(hz_from_code_v2(code_v2(9999)), Some(500));
    for code in 0u8..=255 {
        if let Some(hz) = hz_from_code_v1(code) {
            assert_eq!(code_v1(hz), code);
        }
        if let Some(hz) = hz_from_code_v2(code) {
            assert_eq!(code_v2(hz), code);
        }
    }
}
