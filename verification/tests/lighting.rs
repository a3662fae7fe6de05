use razer_hid::commands::lighting::{
    build_ext_brightness_get, build_ext_brightness_set, build_ext_custom_frame_row,
    build_ext_effect_breathing_dual, build_ext_effect_breathing_random,
    build_ext_effect_breathing_single, build_ext_effect_custom_draw, build_ext_effect_none,
    build_ext_effect_reactive, build_ext_effect_spectrum, build_ext_effect_starlight_dual,
    build_ext_effect_starlight_random, build_ext_effect_starlight_single, build_ext_effect_static,
    build_ext_effect_wave, build_ext_effect_wheel, build_std_led_brightness, build_std_led_effect,
    build_std_led_rgb, build_std_led_state, build_std_matrix_custom_frame_row,
    build_std_matrix_effect_breathing_single, build_std_matrix_effect_custom,
    build_std_matrix_effect_none, build_std_matrix_effect_reactive, build_std_matrix_effect_spectrum,
    build_std_matrix_effect_starlight_dual, build_std_matrix_effect_starlight_single,
    build_std_matrix_effect_static, build_std_matrix_effect_wave, led_id, parse_ext_brightness,
    LightingError,
};
use razer_hid::commands::{NOSTORE, VARSTORE};

const VARSTORE_TEST: u8 = VARSTORE;

#[test]
fn ext_effect_none_bytes() {
    let r = build_ext_effect_none(0x1F, VARSTORE_TEST, 0x04);
    assert_eq!(r.command_class, 0x0F);
    assert_eq!(r.command_id, 0x02);
    assert_eq!(r.data_size, 6);
    assert_eq!(&r.arguments[..6], &[0x01, 0x04, 0x00, 0, 0, 0]);
    assert!(r.crc_valid());
}


#[test]
fn ext_effect_static_bytes() {
    let r = build_ext_effect_static(0x1F, NOSTORE, 0x04, [0xFF, 0x00, 0x80]);
    assert_eq!(r.command_class, 0x0F);
    assert_eq!(r.command_id, 0x02);
    assert_eq!(r.data_size, 9);
    assert_eq!(
        &r.arguments[..9],
        &[0x00, 0x04, 0x01, 0x00, 0x00, 0x01, 0xFF, 0x00, 0x80]
    );
    assert!(r.crc_valid());
}

#[test]
fn ext_effect_breathing_single_bytes() {
    let r = build_ext_effect_breathing_single(0xFF, VARSTORE_TEST, 0x01, [0x10, 0x20, 0x30]);
    assert_eq!(r.data_size, 9);
    assert_eq!(
        &r.arguments[..9],
        &[0x01, 0x01, 0x02, 0x01, 0x00, 0x01, 0x10, 0x20, 0x30]
    );
}

#[test]
fn ext_effect_breathing_dual_bytes() {
    let r = build_ext_effect_breathing_dual(
        0xFF,
        VARSTORE_TEST,
        0x01,
        [0x01, 0x02, 0x03],
        [0x04, 0x05, 0x06],
    );
    assert_eq!(r.data_size, 12);
    assert_eq!(
        &r.arguments[..12],
        &[
            0x01, 0x01, 0x02, 0x02, 0x00, 0x02, 0x01, 0x02, 0x03, 0x04, 0x05, 0x06
        ]
    );
}

#[test]
fn ext_effect_breathing_random_bytes() {
    let r = build_ext_effect_breathing_random(0xFF, VARSTORE_TEST, 0x01);
    assert_eq!(r.data_size, 6);
    assert_eq!(&r.arguments[..6], &[0x01, 0x01, 0x02, 0, 0, 0]);
}

#[test]
fn ext_effect_spectrum_bytes() {
    let r = build_ext_effect_spectrum(0xFF, VARSTORE_TEST, 0x04);
    assert_eq!(r.data_size, 6);
    assert_eq!(&r.arguments[..6], &[0x01, 0x04, 0x03, 0, 0, 0]);
}

#[test]
fn ext_effect_wave_bytes_and_clamp() {
    let r = build_ext_effect_wave(0xFF, VARSTORE_TEST, 0x01, 0x01);
    assert_eq!(r.data_size, 6);
    assert_eq!(&r.arguments[..6], &[0x01, 0x01, 0x04, 0x01, 0x28, 0]);

    // Out-of-range direction clamps to 0x02.
    let clamped = build_ext_effect_wave(0xFF, VARSTORE_TEST, 0x01, 0xFF);
    assert_eq!(clamped.arguments[3], 0x02);
}

#[test]
fn ext_effect_reactive_bytes_and_clamp() {
    let r = build_ext_effect_reactive(0xFF, VARSTORE_TEST, 0x01, 0x02, [1, 2, 3]);
    assert_eq!(r.data_size, 9);
    assert_eq!(
        &r.arguments[..9],
        &[0x01, 0x01, 0x05, 0x00, 0x02, 0x01, 1, 2, 3]
    );
    let clamped = build_ext_effect_reactive(0xFF, VARSTORE_TEST, 0x01, 0xFF, [0, 0, 0]);
    assert_eq!(clamped.arguments[4], 0x04);
}

#[test]
fn ext_effect_starlight_bytes() {
    let single = build_ext_effect_starlight_single(0xFF, VARSTORE_TEST, 0x01, 0x02, [9, 9, 9]);
    assert_eq!(single.data_size, 9);
    assert_eq!(
        &single.arguments[..9],
        &[0x01, 0x01, 0x07, 0x00, 0x02, 0x01, 9, 9, 9]
    );

    let random = build_ext_effect_starlight_random(0xFF, VARSTORE_TEST, 0x01, 0x03);
    assert_eq!(random.data_size, 6);
    assert_eq!(&random.arguments[..6], &[0x01, 0x01, 0x07, 0, 0x03, 0]);

    let dual = build_ext_effect_starlight_dual(0xFF, VARSTORE_TEST, 0x01, 0x01, [1, 2, 3], [4, 5, 6]);
    assert_eq!(dual.data_size, 12);
    assert_eq!(
        &dual.arguments[..12],
        &[0x01, 0x01, 0x07, 0, 0x01, 0x02, 1, 2, 3, 4, 5, 6]
    );
}

#[test]
fn ext_effect_custom_draw_bytes() {
    let r = build_ext_effect_custom_draw(0xFF);
    assert_eq!(r.data_size, 12);
    assert_eq!(&r.arguments[..12], &[0, 0, 0x08, 0, 0, 0, 0, 0, 0, 0, 0, 0]);
}

#[test]
fn ext_effect_wheel_bytes_and_clamp() {
    let r = build_ext_effect_wheel(0xFF, VARSTORE_TEST, 0x01, 0x02);
    assert_eq!(r.data_size, 6);
    assert_eq!(&r.arguments[..6], &[0x01, 0x01, 0x0A, 0x02, 0x28, 0]);
    let clamped = build_ext_effect_wheel(0xFF, VARSTORE_TEST, 0x01, 0x00);
    assert_eq!(clamped.arguments[3], 0x01);
}

#[test]
fn ext_brightness_set_and_get_bytes() {
    let set = build_ext_brightness_set(0xFF, VARSTORE_TEST, 0x04, 200);
    assert_eq!(set.command_class, 0x0F);
    assert_eq!(set.command_id, 0x04);
    assert_eq!(set.data_size, 3);
    assert_eq!(&set.arguments[..3], &[0x01, 0x04, 200]);

    let get = build_ext_brightness_get(0xFF, VARSTORE_TEST, 0x04);
    assert_eq!(get.command_id, 0x84);
    assert_eq!(get.data_size, 3);
    assert_eq!(&get.arguments[..3], &[0x01, 0x04, 0]);
}

#[test]
fn parse_brightness_reads_arg2() {
    let mut report = build_ext_brightness_get(0xFF, VARSTORE_TEST, 0x04);
    report.arguments[2] = 128;
    assert_eq!(parse_ext_brightness(&report), 128);
}

#[test]
fn ext_custom_frame_row_bytes() {
    let rgb = [0xAAu8, 0xBB, 0xCC, 0x11, 0x22, 0x33]; // 2 columns
    let r = build_ext_custom_frame_row(0xFF, 0x00, 0x00, 0x01, &rgb).expect("valid row");
    assert_eq!(r.command_class, 0x0F);
    assert_eq!(r.command_id, 0x03);
    assert_eq!(r.data_size, 11); // 6 rgb bytes + 5
    assert_eq!(
        &r.arguments[..11],
        &[0, 0, 0x00, 0x00, 0x01, 0xAA, 0xBB, 0xCC, 0x11, 0x22, 0x33]
    );
}

#[test]
fn ext_custom_frame_row_rejects_mismatched_length() {
    let err = build_ext_custom_frame_row(0xFF, 0x00, 0x00, 0x01, &[0x00; 3]).unwrap_err();
    assert_eq!(
        err,
        LightingError::RowLengthMismatch {
            cols: 2,
            expected: 6,
            got: 3,
        }
    );
}

#[test]
fn std_led_state_rgb_effect_brightness_bytes() {
    let state = build_std_led_state(0x3F, VARSTORE_TEST, led_id::SCROLL, 0x01);
    assert_eq!(state.command_class, 0x03);
    assert_eq!(state.command_id, 0x00);
    assert_eq!(state.data_size, 3);
    assert_eq!(&state.arguments[..3], &[0x01, 0x01, 0x01]);
    // Out-of-range state clamps to 0x01.
    let clamped_state = build_std_led_state(0x3F, VARSTORE_TEST, led_id::SCROLL, 0xFF);
    assert_eq!(clamped_state.arguments[2], 0x01);

    let rgb = build_std_led_rgb(0x3F, VARSTORE_TEST, led_id::LOGO, [1, 2, 3]);
    assert_eq!(rgb.command_id, 0x01);
    assert_eq!(rgb.data_size, 5);
    assert_eq!(&rgb.arguments[..5], &[0x01, 0x04, 1, 2, 3]);

    let effect = build_std_led_effect(0x3F, VARSTORE_TEST, led_id::BACKLIGHT, 0x02);
    assert_eq!(effect.command_id, 0x02);
    assert_eq!(effect.data_size, 3);
    assert_eq!(&effect.arguments[..3], &[0x01, 0x05, 0x02]);

    let brightness = build_std_led_brightness(0x3F, VARSTORE_TEST, led_id::LOGO, 128);
    assert_eq!(brightness.command_id, 0x03);
    assert_eq!(&brightness.arguments[..3], &[0x01, 0x04, 128]);
}

#[test]
fn std_matrix_effect_bytes() {
    let none = build_std_matrix_effect_none(0x3F);
    assert_eq!(none.command_class, 0x03);
    assert_eq!(none.command_id, 0x0A);
    assert_eq!(none.data_size, 1);
    assert_eq!(&none.arguments[..1], &[0x00]);

    let wave = build_std_matrix_effect_wave(0x3F, 0x01);
    assert_eq!(wave.data_size, 2);
    assert_eq!(&wave.arguments[..2], &[0x01, 0x01]);

    let spectrum = build_std_matrix_effect_spectrum(0x3F);
    assert_eq!(spectrum.data_size, 1);
    assert_eq!(&spectrum.arguments[..1], &[0x04]);

    let static_ = build_std_matrix_effect_static(0x3F, [10, 20, 30]);
    assert_eq!(static_.data_size, 4);
    assert_eq!(&static_.arguments[..4], &[0x06, 10, 20, 30]);

    let reactive = build_std_matrix_effect_reactive(0x3F, 0x02, [1, 2, 3]);
    assert_eq!(reactive.data_size, 5);
    assert_eq!(&reactive.arguments[..5], &[0x02, 0x02, 1, 2, 3]);

    let breathing = build_std_matrix_effect_breathing_single(0x3F, [4, 5, 6]);
    assert_eq!(breathing.data_size, 8);
    assert_eq!(&breathing.arguments[..8], &[0x03, 0x01, 4, 5, 6, 0, 0, 0]);

    let custom = build_std_matrix_effect_custom(0x3F, VARSTORE_TEST);
    assert_eq!(custom.data_size, 2);
    assert_eq!(&custom.arguments[..2], &[0x05, 0x01]);
}

#[test]
fn std_matrix_effect_starlight_replicates_upstream_data_size_quirk() {
    let single = build_std_matrix_effect_starlight_single(0x3F, 0x02, [1, 2, 3]);
    assert_eq!(single.command_class, 0x03);
    assert_eq!(single.command_id, 0x0A);
    // Upstream passes arg_size=0x01 despite writing through arguments[8].
    assert_eq!(single.data_size, 0x01);
    assert_eq!(
        &single.arguments[..9],
        &[0x19, 0x01, 0x02, 1, 2, 3, 0, 0, 0]
    );
    assert!(single.crc_valid());

    let dual = build_std_matrix_effect_starlight_dual(0x3F, 0x01, [1, 2, 3], [4, 5, 6]);
    assert_eq!(dual.data_size, 0x01);
    assert_eq!(&dual.arguments[..9], &[0x19, 0x02, 0x01, 1, 2, 3, 4, 5, 6]);
    assert!(dual.crc_valid());
}

#[test]
fn std_matrix_custom_frame_row_bytes() {
    let rgb = [1u8, 2, 3, 4, 5, 6];
    let r = build_std_matrix_custom_frame_row(0x3F, 0x00, 0x00, 0x01, &rgb).expect("valid");
    assert_eq!(r.command_class, 0x03);
    assert_eq!(r.command_id, 0x0B);
    assert_eq!(r.data_size, 0x46);
    assert_eq!(
        &r.arguments[..10],
        &[0xFF, 0x00, 0x00, 0x01, 1, 2, 3, 4, 5, 6]
    );
}

#[test]
fn std_matrix_custom_frame_row_rejects_mismatched_length() {
    let err = build_std_matrix_custom_frame_row(0x3F, 0x00, 0x00, 0x01, &[0u8; 3]).unwrap_err();
    assert_eq!(
        err,
        LightingError::RowLengthMismatch {
            cols: 2,
            expected: 6,
            got: 3,
        }
    );
}


#[test]
fn ext_custom_frame_row_rejects_too_long_row() {
    // 26 columns * 3 = 78 bytes; + 5 header bytes = 83 > 80.
    let rgb = [0u8; 78];
    let err = build_ext_custom_frame_row(0xFF, 0x00, 0x00, 25, &rgb).unwrap_err();
    assert_eq!(err, LightingError::RowTooLong { data_size: 83, max: 80 });
    // The classic upload has a 4-byte header: 78 + 4 = 82 > 80 as well.
    let err = build_std_matrix_custom_frame_row(0xFF, 0x00, 0x00, 25, &rgb).unwrap_err();
    assert_eq!(err, LightingError::RowTooLong { data_size: 82, max: 80 });
    // 25 columns fit both layouts.
    let rgb = [7u8; 75];
    let ext = build_ext_custom_frame_row(0xFF, 0x02, 0x00, 24, &rgb).expect("fits");
    assert_eq!(ext.data_size, 80);
    assert_eq!(ext.arguments[79], 7);
    let std = build_std_matrix_custom_frame_row(0xFF, 0x02, 0x00, 24, &rgb).expect("fits");
    assert_eq!(std.arguments[78], 7);
    assert_eq!(std.arguments[79], 0);
}

#[test]
fn custom_frame_row_with_reversed_columns_spans_nothing() {
    let r = build_ext_custom_frame_row(0xFF, 0x01, 5, 2, &[]).expect("empty span");
    assert_eq!(r.data_size, 5);
    assert_eq!(&r.arguments[..5], &[0, 0, 0x01, 5, 2]);
    let err = build_ext_custom_frame_row(0xFF, 0x01, 5, 2, &[1, 2, 3]).unwrap_err();
    assert_eq!(err, LightingError::RowLengthMismatch { cols: 0, expected: 0, got: 3 });
}

#[test]
fn starlight_speed_and_std_effect_clamps() {
    assert_eq!(build_ext_effect_starlight_random(0xFF, NOSTORE, 0x01, 0x00).arguments[4], 0x01);
    assert_eq!(build_ext_effect_starlight_single(0xFF, NOSTORE, 0x01, 0x09, [0; 3]).arguments[4], 0x03);
    assert_eq!(build_std_led_effect(0x3F, NOSTORE, led_id::LOGO, 0x09).arguments[2], 0x05);
    assert_eq!(build_std_matrix_effect_wave(0x3F, 0x00).arguments[1], 0x01);
    assert_eq!(build_std_matrix_effect_reactive(0x3F, 0x00, [0; 3]).arguments[1], 0x01);
    let dual = build_std_matrix_effect_starlight_dual(0x3F, 0xFF, [0; 3], [0; 3]);
    assert_eq!(dual.arguments[2], 0x03);
}

#[test]
fn brightness_set_reads_back_through_parser() {
    for value in [0u8, 1, 128, 255] {
        let r = build_ext_brightness_set(0x1F, NOSTORE, led_id::BACKLIGHT, value);
        assert_eq!(parse_ext_brightness(&r), value);
    }
}
