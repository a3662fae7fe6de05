use razer_hid::cli::menu::MenuKey;
use razer_hid::cli::plan::DeviceCommand;
use razer_hid::cli::profile::{DpiSettings, ProfileSettings, ZoneSettings};
use razer_hid::cli::zones::{
    commit_lighting, effect_index, effect_name, lighting_menu_step, profile_settings_from, step_u8, step_u8_clamp,
    sync_lighting_from_profile, zone_settings_from, LightingAction, LightingSend, LightingState, ZoneState,
    LIGHTING_ROW_BRIGHTNESS, LIGHTING_ROW_COLOR_G, LIGHTING_ROW_COLOR_R, LIGHTING_ROW_EFFECT, LIGHTING_ROW_LED,
    LIGHTING_ROW_LINK_ZONES, LIGHTING_ROW_SPEED,
};
use razer_hid::registry::Effect;
use razer_hid::Capabilities;

fn effects() -> Vec<Effect> {
    vec![Effect::Off, Effect::Static, Effect::Breathing, Effect::Spectrum]
}

fn two_zones(link: bool) -> LightingState {
    let mut s = LightingState::from_readings(true, &[(0x04, Some(100)), (0x01, None)]);
    s.link_zones = link;
    s
}

#[test]
fn initial_zones_are_static_white() {
    let s = two_zones(true);
    assert_eq!(s.selected_zone, 0);
    assert_eq!(
        s.zones,
        vec![
            ZoneState { led_id: 0x04, effect: Effect::Static, color: [255, 255, 255], brightness: 100, speed: 2 },
            ZoneState { led_id: 0x01, effect: Effect::Static, color: [255, 255, 255], brightness: 255, speed: 2 },
        ]
    );
    let none = LightingState::from_readings(false, &[(0x04, Some(100))]);
    assert!(none.zones.is_empty());
    assert!(!none.link_zones);
}

#[test]
fn byte_steps_saturate() {
    assert_eq!(step_u8(250, 16), 255);
    assert_eq!(step_u8(10, -16), 0);
    assert_eq!(step_u8(100, 16), 116);
    assert_eq!(step_u8_clamp(4, 1, 1, 4), 4);
    assert_eq!(step_u8_clamp(1, -1, 1, 4), 1);
    assert_eq!(step_u8_clamp(2, 1, 1, 4), 3);
}

#[test]
fn effect_positions() {
    assert_eq!(effect_index(&effects(), Effect::Breathing), 2);
    assert_eq!(effect_index(&effects(), Effect::Wave), 0);
    assert_eq!(effect_name(Effect::Off), "Off");
    assert_eq!(effect_name(Effect::Custom), "custom");
}

#[test]
fn linked_zones_follow_the_first() {
    let mut s = two_zones(true);
    assert!(s.step_lighting_row(LIGHTING_ROW_BRIGHTNESS, -1, &effects()));
    assert_eq!(s.zones[0].brightness, 84);
    assert_eq!(s.zones[1].brightness, 84);
    assert!(s.step_lighting_row(LIGHTING_ROW_EFFECT, 1, &effects()));
    assert_eq!(s.zones[0].effect, Effect::Breathing);
    assert_eq!(s.zones[1].effect, Effect::Breathing);
    assert_eq!(s.zones[1].led_id, 0x01);
    // The zone row does nothing while the zones are linked.
    assert!(!s.step_lighting_row(LIGHTING_ROW_LED, 1, &effects()));
}

#[test]
fn unlinked_zones_are_edited_one_by_one() {
    let mut s = two_zones(false);
    assert!(s.step_lighting_row(LIGHTING_ROW_LED, 1, &effects()));
    assert_eq!(s.selected_zone, 1);
    assert!(!s.step_lighting_row(LIGHTING_ROW_LED, 1, &effects()));
    assert!(s.step_lighting_row(LIGHTING_ROW_COLOR_G, -1, &effects()));
    assert_eq!(s.zones[1].color, [255, 239, 255]);
    assert_eq!(s.zones[0].color, [255, 255, 255]);
    assert!(s.step_lighting_row(LIGHTING_ROW_SPEED, 1, &effects()));
    assert_eq!(s.zones[1].speed, 3);
}

#[test]
fn linking_copies_the_selected_zone_to_all_but_the_first() {
    let mut s = two_zones(false);
    s.step_lighting_row(LIGHTING_ROW_LED, 1, &effects());
    s.step_lighting_row(LIGHTING_ROW_EFFECT, -1, &effects());
    assert_eq!(s.zones[1].effect, Effect::Off);
    assert!(s.step_lighting_row(LIGHTING_ROW_LINK_ZONES, 1, &effects()));
    assert!(s.link_zones);
    assert_eq!(s.zones[0].effect, Effect::Static);
    assert_eq!(s.zones[1].effect, Effect::Off);
}

#[test]
fn adjusting_gives_the_commands_to_send() {
    let s = two_zones(true);
    let (stepped, cmds) = s.adjust_lighting(LIGHTING_ROW_BRIGHTNESS, 1, &effects());
    assert_eq!(
        cmds,
        vec![
            DeviceCommand::Effect { led: 0x04, effect: Effect::Static, color: [255, 255, 255], speed: 2 },
            DeviceCommand::Brightness { led: 0x04, value: 116 },
            DeviceCommand::Effect { led: 0x01, effect: Effect::Static, color: [255, 255, 255], speed: 2 },
            DeviceCommand::Brightness { led: 0x01, value: 116 },
        ]
    );
    assert_eq!(stepped.zones[1].brightness, 116);
    // Nothing is committed yet.
    assert_eq!(s.zones[0].brightness, 100);
    let u = two_zones(false);
    let (_, one) = u.adjust_lighting(LIGHTING_ROW_SPEED, 1, &effects());
    assert_eq!(one.len(), 2);
    assert_eq!(one[0], DeviceCommand::Effect { led: 0x04, effect: Effect::Static, color: [255, 255, 255], speed: 3 });
    assert!(u.adjust_lighting(LIGHTING_ROW_LED, -1, &effects()).1.is_empty());
}

#[test]
fn steps_at_a_bound_alter_nothing() {
    let mut s = LightingState::from_readings(true, &[(0x04, None)]);
    s.link_zones = false;
    assert!(!s.step_lighting_row(LIGHTING_ROW_COLOR_R, 1, &effects()));
    assert!(!s.step_lighting_row(LIGHTING_ROW_BRIGHTNESS, 1, &effects()));
    assert_eq!(s.zones[0].color, [255, 255, 255]);
    s.zones[0].speed = 4;
    assert!(!s.step_lighting_row(LIGHTING_ROW_SPEED, 1, &effects()));
    s.zones[0].effect = Effect::Spectrum;
    assert!(!s.step_lighting_row(LIGHTING_ROW_EFFECT, 1, &effects()));
    assert!(s.step_lighting_row(LIGHTING_ROW_EFFECT, -1, &effects()));
    assert!(s.adjust_lighting(LIGHTING_ROW_BRIGHTNESS, 1, &effects()).1.is_empty());
}

#[test]
fn a_change_is_kept_only_when_the_device_accepts_it() {
    let mut s = two_zones(false);
    let (stepped, cmds) = s.adjust_lighting(LIGHTING_ROW_BRIGHTNESS, -1, &effects());
    let mut send = LightingSend::new(cmds, None);
    assert_eq!(send.current(), DeviceCommand::Effect { led: 0x04, effect: Effect::Static, color: [255, 255, 255], speed: 2 });
    send.record(Ok(()));
    send.record(Err("busy".to_string()));
    assert!(send.done());
    let status = commit_lighting(&mut s, stepped, send);
    assert_eq!(status, Some("set brightness failed: busy".to_string()));
    assert_eq!(s.zones[0].brightness, 100);

    let (stepped, cmds) = s.adjust_lighting(LIGHTING_ROW_BRIGHTNESS, -1, &effects());
    let mut send = LightingSend::new(cmds, Some("old".to_string()));
    send.record(Ok(()));
    assert_eq!(send.status, Some("old".to_string()));
    send.record(Ok(()));
    let status = commit_lighting(&mut s, stepped, send);
    assert_eq!(status, None);
    assert_eq!(s.zones[0].brightness, 84);
}

#[test]
fn a_failed_effect_skips_that_leds_brightness() {
    let s = two_zones(true);
    let (stepped, cmds) = s.adjust_lighting(LIGHTING_ROW_SPEED, 1, &effects());
    assert_eq!(cmds.len(), 4);
    let mut send = LightingSend::new(cmds, None);
    send.record(Err("timeout".to_string()));
    assert_eq!(send.next, 2);
    assert_eq!(send.status, Some("set effect failed: timeout".to_string()));
    send.record(Ok(()));
    send.record(Ok(()));
    assert!(send.done());
    assert!(send.failed);
    let mut t = two_zones(true);
    assert_eq!(commit_lighting(&mut t, stepped, send), None);
    assert_eq!(t.zones[0].speed, 2);
}

#[test]
fn lighting_menu_keys() {
    assert_eq!(lighting_menu_step(0, MenuKey::Up), (0, LightingAction::Stay));
    assert_eq!(lighting_menu_step(0, MenuKey::Down), (1, LightingAction::Stay));
    assert_eq!(lighting_menu_step(7, MenuKey::Down), (7, LightingAction::Stay));
    assert_eq!(lighting_menu_step(3, MenuKey::Left), (3, LightingAction::Adjust { signum: -1 }));
    assert_eq!(lighting_menu_step(3, MenuKey::Right), (3, LightingAction::Adjust { signum: 1 }));
    assert_eq!(lighting_menu_step(3, MenuKey::Back), (3, LightingAction::Leave));
    assert_eq!(lighting_menu_step(3, MenuKey::Quit), (3, LightingAction::Leave));
}

#[test]
fn saved_settings_of_the_menu() {
    let caps = Capabilities { lighting: true, dpi: true, polling_rate: true, ..Capabilities::default() };
    let linked = profile_settings_from(&caps, 800, 900, 500, &two_zones(true));
    assert_eq!(linked.dpi, Some(DpiSettings { x: 800, y: 900 }));
    assert_eq!(linked.polling_hz, Some(500));
    assert_eq!(linked.global_zone, Some(zone_settings_from(&two_zones(true).zones[0])));
    assert!(linked.lighting_zones.is_empty());
    let single = profile_settings_from(&Capabilities::default(), 800, 900, 500, &two_zones(false));
    assert_eq!(single.dpi, None);
    assert_eq!(single.global_zone, None);
    assert_eq!(single.lighting_zones.len(), 2);
    assert_eq!(single.lighting_zones[1].led_id, 0x01);
}

#[test]
fn saved_zones_restore() {
    let caps = Capabilities { lighting: true, ..Capabilities::default() };
    let mut s = two_zones(false);
    s.step_lighting_row(LIGHTING_ROW_EFFECT, 1, &effects());
    let saved = profile_settings_from(&caps, 0, 0, 0, &s);
    let before = s.zones.clone();
    let mut fresh = two_zones(false);
    sync_lighting_from_profile(&caps, &mut fresh, &saved);
    assert_eq!(fresh.zones, before);
}

#[test]
fn applied_profile_updates_the_zones() {
    let caps = Capabilities { lighting: true, ..Capabilities::default() };
    let z = ZoneSettings { led_id: 0x99, effect: Effect::Wave, color: [1, 2, 3], brightness: 9, speed: 4 };
    let mut s = two_zones(true);
    let global = ProfileSettings { global_zone: Some(z), ..ProfileSettings::default() };
    sync_lighting_from_profile(&caps, &mut s, &global);
    assert!(s.zones.iter().all(|zz| zz.effect == Effect::Wave && zz.color == [1, 2, 3]));
    assert_eq!(s.zones[1].led_id, 0x01);
    let mut t = two_zones(false);
    let single = ProfileSettings {
        lighting_zones: vec![ZoneSettings { led_id: 0x01, ..z }, ZoneSettings { led_id: 0x07, ..z }],
        ..ProfileSettings::default()
    };
    sync_lighting_from_profile(&caps, &mut t, &single);
    assert_eq!(t.zones[0].effect, Effect::Static);
    assert_eq!(t.zones[1].effect, Effect::Wave);
    let mut u = two_zones(false);
    sync_lighting_from_profile(&Capabilities::default(), &mut u, &global);
    assert_eq!(u.zones[0].effect, Effect::Static);
}
