use razer_hid::cli::menu::{
    build_menu_visibility, first_index, index_after_delete, next_row_index_down,
    next_row_index_up, polling_index_of, polling_rate_at, profiles_menu_step, MainMenu, MenuAction,
    MenuKey, ProfilesAction,
};
use razer_hid::{Capabilities, DeviceDef, DeviceType};

fn def(caps: Capabilities, dpi_min: Option<u16>, dpi_max: Option<u32>) -> DeviceDef {
    DeviceDef {
        name: "Razer DeathAdder V2".to_string(),
        usb_pid: 0x0084,
        device_type: DeviceType::Mouse,
        transaction_id: 0x3F,
        wait_us: 600,
        capabilities: caps,
        led_regions: vec![],
        matrix_dims: None,
        dpi_min,
        dpi_max,
    }
}

fn mouse() -> Capabilities {
    Capabilities { lighting: true, dpi: true, dpi_stages: false, polling_rate: true, battery: false, onboard: false }
}

#[test]
fn polling_table() {
    assert_eq!([polling_rate_at(0), polling_rate_at(1), polling_rate_at(2)], [125, 500, 1000]);
    assert_eq!(polling_index_of(500), 1);
    assert_eq!(polling_index_of(1000), 2);
    assert_eq!(polling_index_of(250), 0);
}

#[test]
fn rows_shown_follow_capabilities() {
    assert_eq!(build_menu_visibility(&mouse()), [true, true, true, true, true]);
    let keyboard = Capabilities { lighting: true, polling_rate: true, ..Capabilities::default() };
    assert_eq!(build_menu_visibility(&keyboard), [false, false, true, true, true]);
}

#[test]
fn cursor_moves_over_shown_rows() {
    let vis = [false, false, true, false, true];
    assert_eq!(first_index(&vis), 2);
    assert_eq!(next_row_index_down(&vis, 2), 4);
    assert_eq!(next_row_index_down(&vis, 4), 4);
    assert_eq!(next_row_index_up(&vis, 4), 2);
    // Going up wraps round to the bottom.
    assert_eq!(next_row_index_up(&vis, 2), 4);
    assert_eq!(first_index(&[false; 5]), 0);
    assert_eq!(next_row_index_up(&[false; 5], 3), 3);
}

#[test]
fn new_menu_starts_on_the_first_shown_row() {
    let m = MainMenu::new(&def(mouse(), Some(200), Some(20000)), 800, 800, 1000);
    assert_eq!(m.index, 0);
    assert_eq!(m.polling_index, 2);
    assert_eq!((m.dpi_min, m.dpi_max), (200, 20000));
    let k = MainMenu::new(&def(Capabilities { lighting: true, ..Capabilities::default() }, None, None), 0, 0, 0);
    assert_eq!(k.index, 3);
    assert_eq!((k.dpi_min, k.dpi_max), (100, u16::MAX));
}

#[test]
fn dpi_steps_by_fifty_within_bounds() {
    let mut m = MainMenu::new(&def(mouse(), Some(100), Some(900)), 140, 880, 500);
    assert_eq!(m.step(MenuKey::Left), MenuAction::SetDpi { x: 100, y: 880 });
    assert_eq!(m.step(MenuKey::Right), MenuAction::SetDpi { x: 150, y: 880 });
    assert_eq!(m.step(MenuKey::Down), MenuAction::Stay);
    assert_eq!(m.index, 1);
    assert_eq!(m.step(MenuKey::Right), MenuAction::Stay);
    assert_eq!(m.y, 880);
    assert_eq!(m.step(MenuKey::Left), MenuAction::SetDpi { x: 150, y: 830 });
}

#[test]
fn dpi_below_one_step_stays() {
    let mut m = MainMenu::new(&def(mouse(), Some(10), None), 40, 40, 125);
    assert_eq!(m.step(MenuKey::Left), MenuAction::Stay);
    assert_eq!(m.x, 40);
}

#[test]
fn dpi_max_is_cut_to_sixteen_bits() {
    let m = MainMenu::new(&def(mouse(), None, Some(70000)), 0, 0, 125);
    assert_eq!(m.dpi_max, (70000u32 & 0xFFFF) as u16);
}

#[test]
fn polling_steps_through_the_table() {
    let mut m = MainMenu::new(&def(mouse(), None, None), 800, 800, 125);
    m.step(MenuKey::Down);
    m.step(MenuKey::Down);
    assert_eq!(m.index, 2);
    assert_eq!(m.step(MenuKey::Left), MenuAction::Stay);
    assert_eq!(m.step(MenuKey::Right), MenuAction::SetPolling { hz: 500 });
    assert_eq!(m.step(MenuKey::Right), MenuAction::SetPolling { hz: 1000 });
    assert_eq!(m.step(MenuKey::Right), MenuAction::Stay);
    assert_eq!(m.step(MenuKey::Left), MenuAction::SetPolling { hz: 500 });
}

#[test]
fn enter_opens_submenus_or_toggles_editing() {
    let mut m = MainMenu::new(&def(mouse(), None, None), 800, 800, 125);
    assert_eq!(m.step(MenuKey::Enter), MenuAction::Stay);
    assert!(m.edit_mode);
    m.step(MenuKey::Up);
    assert_eq!(m.index, 4);
    assert_eq!(m.step(MenuKey::Enter), MenuAction::OpenProfiles);
    m.step(MenuKey::Up);
    assert_eq!(m.step(MenuKey::Enter), MenuAction::OpenLighting);
    assert_eq!(m.step(MenuKey::Quit), MenuAction::Quit);
    assert_eq!(m.step(MenuKey::Back), MenuAction::Stay);
}

#[test]
fn profile_list_cursor_and_actions() {
    assert_eq!(profiles_menu_step(0, 3, MenuKey::Down), (1, ProfilesAction::Stay));
    assert_eq!(profiles_menu_step(2, 3, MenuKey::Down), (2, ProfilesAction::Stay));
    assert_eq!(profiles_menu_step(0, 3, MenuKey::Up), (0, ProfilesAction::Stay));
    assert_eq!(profiles_menu_step(1, 3, MenuKey::Enter), (1, ProfilesAction::Apply { index: 1 }));
    assert_eq!(profiles_menu_step(1, 3, MenuKey::Delete), (1, ProfilesAction::Delete { index: 1 }));
    assert_eq!(profiles_menu_step(0, 0, MenuKey::Enter), (0, ProfilesAction::Stay));
    assert_eq!(profiles_menu_step(0, 0, MenuKey::Delete), (0, ProfilesAction::Stay));
    assert_eq!(profiles_menu_step(0, 0, MenuKey::New), (0, ProfilesAction::Save));
    assert_eq!(profiles_menu_step(0, 2, MenuKey::Back), (0, ProfilesAction::Leave));
    assert_eq!(profiles_menu_step(0, 2, MenuKey::Quit), (0, ProfilesAction::Leave));
    assert_eq!(index_after_delete(2, 2), 1);
    assert_eq!(index_after_delete(1, 2), 1);
    assert_eq!(index_after_delete(0, 0), 0);
}
