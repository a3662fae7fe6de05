use razer_hid::cli::plan::{
    command_request, drop_unsupported, effect_leds, effect_request, plan_settings, retry_note, should_retry,
    stages_from_values, DeviceCommand, Dropped,
};
use razer_hid::cli::profile::{DpiSettings, ProfileSettings, ZoneSettings};
use razer_hid::commands::dpi::{build_set_dpi_xy, DpiStage};
use razer_hid::commands::lighting::{
    build_ext_brightness_set, build_ext_effect_reactive, build_ext_effect_spectrum,
    build_ext_effect_static, build_ext_effect_wave,
};
use razer_hid::commands::polling::build_set_polling_rate;
use razer_hid::commands::{NOSTORE, VARSTORE};
use razer_hid::registry::Effect;
use razer_hid::{Capabilities, DeviceDef, DeviceType, LedRegion};

fn zone(led: u8, effect: Effect) -> ZoneSettings {
    ZoneSettings { led_id: led, effect, color: [9, 8, 7], brightness: 100, speed: 2 }
}

fn device(caps: Capabilities, regions: Vec<LedRegion>) -> DeviceDef {
    DeviceDef {
        name: "d".to_string(),
        usb_pid: 0x0084,
        device_type: DeviceType::Mouse,
        transaction_id: 0x1F,
        wait_us: 600,
        capabilities: caps,
        led_regions: regions,
        matrix_dims: None,
        dpi_min: None,
        dpi_max: None,
    }
}

fn all_caps() -> Capabilities {
    Capabilities { lighting: true, dpi: true, dpi_stages: true, polling_rate: true, battery: true, onboard: false }
}

fn full_settings() -> ProfileSettings {
    ProfileSettings {
        global_zone: Some(zone(4, Effect::Static)),
        lighting_zones: vec![zone(1, Effect::Spectrum)],
        dpi: Some(DpiSettings { x: 800, y: 900 }),
        polling_hz: Some(500),
    }
}

#[test]
fn unsupported_settings_are_dropped() {
    let caps = Capabilities { dpi: true, ..Capabilities::default() };
    let (kept, dropped) = drop_unsupported(full_settings(), &caps);
    assert_eq!(kept.dpi, Some(DpiSettings { x: 800, y: 900 }));
    assert_eq!(kept.global_zone, None);
    assert!(kept.lighting_zones.is_empty());
    assert_eq!(kept.polling_hz, None);
    assert_eq!(dropped, Dropped { dpi: false, lighting: true, polling: true });
}

#[test]
fn nothing_is_dropped_from_a_capable_device() {
    let (kept, dropped) = drop_unsupported(full_settings(), &all_caps());
    assert_eq!(kept, full_settings());
    assert_eq!(dropped, Dropped { dpi: false, lighting: false, polling: false });
}

#[test]
fn plan_sends_lighting_then_dpi_then_polling() {
    let regions = vec![
        LedRegion { name: "logo".to_string(), id: 4 },
        LedRegion { name: "scroll".to_string(), id: 1 },
    ];
    let plan = plan_settings(&device(all_caps(), regions), &full_settings());
    let g = zone(4, Effect::Static);
    let z = zone(1, Effect::Spectrum);
    assert_eq!(
        plan,
        vec![
            DeviceCommand::Effect { led: 4, effect: g.effect, color: g.color, speed: g.speed },
            DeviceCommand::Brightness { led: 4, value: g.brightness },
            DeviceCommand::Effect { led: 1, effect: g.effect, color: g.color, speed: g.speed },
            DeviceCommand::Brightness { led: 1, value: g.brightness },
            DeviceCommand::Effect { led: 1, effect: z.effect, color: z.color, speed: z.speed },
            DeviceCommand::Brightness { led: 1, value: z.brightness },
            DeviceCommand::Dpi { x: 800, y: 900 },
            DeviceCommand::Polling { hz: 500 },
        ]
    );
}

#[test]
fn global_zone_goes_to_the_logo_without_regions() {
    let settings = ProfileSettings { global_zone: Some(zone(9, Effect::Wave)), ..ProfileSettings::default() };
    let plan = plan_settings(&device(all_caps(), vec![]), &settings);
    assert_eq!(plan.len(), 2);
    assert!(matches!(plan[0], DeviceCommand::Effect { led: 4, effect: Effect::Wave, .. }));
}

#[test]
fn plan_skips_what_the_device_lacks() {
    let caps = Capabilities { polling_rate: true, ..Capabilities::default() };
    let plan = plan_settings(&device(caps, vec![]), &full_settings());
    assert_eq!(plan, vec![DeviceCommand::Polling { hz: 500 }]);
}

#[test]
fn requests_for_planned_commands() {
    assert_eq!(
        command_request(0x1F, DeviceCommand::Dpi { x: 800, y: 900 }),
        build_set_dpi_xy(0x1F, VARSTORE, 800, 900)
    );
    assert_eq!(
        command_request(0x1F, DeviceCommand::Brightness { led: 4, value: 50 }),
        build_ext_brightness_set(0x1F, NOSTORE, 4, 50)
    );
    assert_eq!(
        command_request(0x1F, DeviceCommand::Polling { hz: 1000 }),
        build_set_polling_rate(0x1F, 1000)
    );
    assert_eq!(
        command_request(0x1F, DeviceCommand::Effect { led: 1, effect: Effect::Static, color: [1, 2, 3], speed: 2 }),
        build_ext_effect_static(0x1F, NOSTORE, 1, [1, 2, 3])
    );
}

#[test]
fn effect_requests() {
    assert_eq!(effect_request(0x3F, NOSTORE, 4, Effect::Wave, [0; 3], 2), build_ext_effect_wave(0x3F, NOSTORE, 4, 0x01));
    assert_eq!(effect_request(0x3F, NOSTORE, 4, Effect::Spectrum, [1; 3], 2), build_ext_effect_spectrum(0x3F, NOSTORE, 4));
    assert_eq!(
        effect_request(0x3F, VARSTORE, 1, Effect::Reactive, [5, 6, 7], 3),
        build_ext_effect_reactive(0x3F, VARSTORE, 1, 3, [5, 6, 7])
    );
}

#[test]
fn stage_tables_take_two_to_five_values() {
    assert_eq!(
        stages_from_values(&[800, 1600]),
        Some(vec![
            DpiStage { index: 0, dpi_x: 800, dpi_y: 800 },
            DpiStage { index: 1, dpi_x: 1600, dpi_y: 1600 },
        ])
    );
    assert_eq!(stages_from_values(&[800]), None);
    assert_eq!(stages_from_values(&[1, 2, 3, 4, 5, 6]), None);
    assert_eq!(stages_from_values(&[1, 2, 3, 4, 5]).map(|s| s.len()), Some(5));
}

#[test]
fn retries_while_attempts_remain() {
    assert!(should_retry(0, 3));
    assert!(should_retry(1, 3));
    assert!(!should_retry(2, 3));
    assert!(!should_retry(0, 1));
    assert!(!should_retry(0, 0));
}

#[test]
fn effect_goes_to_the_given_led_or_every_zone() {
    let regions = vec![
        LedRegion { name: "logo".to_string(), id: 4 },
        LedRegion { name: "scroll".to_string(), id: 1 },
    ];
    assert_eq!(effect_leds(&device(all_caps(), regions.clone()), None), vec![4, 1]);
    assert_eq!(effect_leds(&device(all_caps(), regions), Some(5)), vec![5]);
    assert_eq!(effect_leds(&device(all_caps(), vec![]), None), vec![4]);
}

#[test]
fn a_retry_is_reported_until_the_last_attempt() {
    assert_eq!(
        retry_note(0, 3, "set DPI", "device busy").as_deref(),
        Some("retrying set DPI (attempt 1/3): device busy")
    );
    assert_eq!(
        retry_note(1, 12, "get polling", "timeout").as_deref(),
        Some("retrying get polling (attempt 2/12): timeout")
    );
    assert_eq!(retry_note(2, 3, "set DPI", "device busy"), None);
    assert_eq!(retry_note(0, 0, "set DPI", "device busy"), None);
}
