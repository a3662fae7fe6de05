use razer_hid::cli::detect::{auto_detect_pid, format_pid_list, get_capabilities, unique_razer_pids, DetectError};
use razer_hid::cli::display::{info_text, list_text_for};
use razer_hid::transport::HidInfo;
use razer_hid::{Capabilities, DeviceDef, DeviceType, LedRegion, Registry, RAZER_VID};

fn def(name: &str, pid: u16, device_type: DeviceType, caps: Capabilities) -> DeviceDef {
    DeviceDef {
        name: name.to_string(),
        usb_pid: pid,
        device_type,
        transaction_id: 0x3F,
        wait_us: 600,
        capabilities: caps,
        led_regions: vec![],
        matrix_dims: None,
        dpi_min: None,
        dpi_max: None,
    }
}

fn mouse_caps() -> Capabilities {
    Capabilities { lighting: true, dpi: true, dpi_stages: false, polling_rate: true, battery: false, onboard: false }
}

fn registry() -> Registry {
    let mut r = Registry::new();
    r.push(def("Razer DeathAdder V2", 0x0084, DeviceType::Mouse, mouse_caps()));
    r.push(def(
        "Razer BlackWidow V3",
        0x024E,
        DeviceType::Keyboard,
        Capabilities { lighting: true, ..Capabilities::default() },
    ));
    r
}

fn razer(pid: u16) -> HidInfo {
    HidInfo { vendor_id: RAZER_VID, product_id: pid, usage_page: 0xFF00 }
}

#[test]
fn supported_pids_once_each_in_order() {
    let infos = [razer(0x024E), razer(0x0084), razer(0x024E), razer(0x0999)];
    let (pids, last) = unique_razer_pids(&infos, &registry());
    assert_eq!(pids, vec![0x024E, 0x0084]);
    assert_eq!(last, Some(0x0999));
}

#[test]
fn other_vendors_are_ignored() {
    let infos = [HidInfo { vendor_id: 0x046D, product_id: 0x0084, usage_page: 0xFF00 }];
    let (pids, last) = unique_razer_pids(&infos, &registry());
    assert!(pids.is_empty());
    assert_eq!(last, None);
}

#[test]
fn auto_detect_single_device() {
    let infos = [razer(0x0084), razer(0x0084)];
    assert_eq!(auto_detect_pid(&infos, &registry()), Ok(0x0084));
}

#[test]
fn auto_detect_errors() {
    assert_eq!(auto_detect_pid(&[], &registry()), Err(DetectError::NoDevice));
    assert_eq!(
        auto_detect_pid(&[razer(0x0777)], &registry()),
        Err(DetectError::Unsupported { pid: 0x0777 })
    );
    assert_eq!(
        auto_detect_pid(&[razer(0x0084), razer(0x024E)], &registry()),
        Err(DetectError::Multiple { pids: vec![0x0084, 0x024E] })
    );
}

#[test]
fn pid_list_is_lowercase_hex() {
    assert_eq!(format_pid_list(&vec![0x0084, 0x024E]), "0x0084, 0x024e");
    assert_eq!(format_pid_list(&vec![]), "");
}

#[test]
fn capability_names_in_order() {
    let d = def("x", 1, DeviceType::Mouse, Capabilities { battery: true, onboard: true, ..mouse_caps() });
    assert_eq!(get_capabilities(&d), vec!["lighting", "dpi", "polling", "battery", "onboard"]);
    let none = def("y", 2, DeviceType::Mouse, Capabilities::default());
    assert!(get_capabilities(&none).is_empty());
}

#[test]
fn list_table_of_attached_devices() {
    let text = list_text_for(&vec![0x0084, 0x0099], None, &registry());
    let expected = format!(
        "{:10}  {:30}  Status\n{:-<60}\n{:<10}  {:<30}  mouse [lighting, dpi, polling]\n{:<10}  {:<30}  (unknown — not in registry)\n",
        "PID", "Name", "", "0x0084", "Razer DeathAdder V2", "0x0099", "?"
    );
    assert_eq!(text, expected);
}

#[test]
fn list_without_supported_devices() {
    let text = list_text_for(&vec![], Some(0x0777), &registry());
    assert_eq!(
        text,
        "Razer device connected but PID 0x0777 is not supported.\n\nSupported registry devices:\n  0x0084  Razer DeathAdder V2\n  0x024e  Razer BlackWidow V3\n"
    );
    let none = list_text_for(&vec![], None, &Registry::new());
    assert_eq!(
        none,
        "no Razer device connected. See if any HID-compliant mice are visible in device manager\n\nSupported registry devices:\n"
    );
}

#[test]
fn info_lines() {
    let mut d = def("Razer DeathAdder V2", 0x0084, DeviceType::Mouse, mouse_caps());
    d.dpi_min = Some(100);
    d.dpi_max = Some(20000);
    d.led_regions = vec![
        LedRegion { name: "logo".to_string(), id: 0x04 },
        LedRegion { name: "scroll".to_string(), id: 0x01 },
    ];
    let text = info_text(&d, &Ok("PM2042H12345678".to_string()), &Ok((1, 3)));
    assert_eq!(
        text,
        "Device: Razer DeathAdder V2\n  PID:            0x0084\n  Type:           Mouse\n  Transaction ID: 0x3f\n  Wait:           600 us\n  DPI range:      100-20000\n  Capabilities:   lighting=true, dpi=true, polling=true, battery=false\n  LED regions:    logo (0x04), scroll (0x01)\n  Serial:         PM2042H12345678\n  Firmware:       v1.3\n"
    );
}

#[test]
fn info_with_failed_reads_and_no_regions() {
    let d = def("Razer BlackWidow V3", 0x024E, DeviceType::Keyboard, Capabilities::default());
    let text = info_text(&d, &Err("timeout".to_string()), &Err("busy".to_string()));
    assert!(text.contains("  Type:           Keyboard\n"));
    assert!(text.contains("  DPI range:      ?-?\n"));
    assert!(text.contains("  LED regions:    (none)\n"));
    assert!(text.ends_with("  Serial:         (read failed: timeout)\n  Firmware:       (read failed: busy)\n"));
}
