use razer_hid::registry::{
    parse_hex_u16, parse_hex_u8, Effect, DEFAULT_TRANSACTION_ID, DEFAULT_WAIT_US,
};
use razer_hid::number::IntErrorKind;
use razer_hid::{Capabilities, DeviceDef, DeviceType, LedRegion, Registry};

fn deathadder_v2() -> DeviceDef {
    DeviceDef {
        name: "Razer DeathAdder V2".to_string(),
        usb_pid: parse_hex_u16("0x0084").expect("pid"),
        device_type: DeviceType::Mouse,
        transaction_id: parse_hex_u8("0x3f").expect("tid"),
        wait_us: 600,
        capabilities: Capabilities {
            lighting: true,
            dpi: true,
            dpi_stages: true,
            polling_rate: true,
            battery: false,
            onboard: false,
        },
        led_regions: vec![
            LedRegion { name: "logo".to_string(), id: 0x04 },
            LedRegion { name: "scroll".to_string(), id: 0x01 },
        ],
        matrix_dims: Some([1, 2]),
        dpi_min: Some(100),
        dpi_max: Some(20000),
    }
}

#[test]
fn registry_lookup_by_pid() {
    let mut reg = Registry::new();
    reg.push(deathadder_v2());
    assert!(reg.find_by_pid(0x0084).is_some());
    assert!(reg.find_by_pid(0x9999).is_none());
}

#[test]
fn lookup_returns_the_first_definition_added() {
    let mut reg = Registry::default();
    let mut first = deathadder_v2();
    first.name = "first".to_string();
    let mut second = deathadder_v2();
    second.name = "second".to_string();
    reg.push(first);
    reg.push(second);
    assert_eq!(reg.devices().len(), 2);
    assert_eq!(reg.find_by_pid(0x0084).map(|d| d.name.as_str()), Some("first"));
}

#[test]
fn hex_fields_accept_prefixes() {
    assert_eq!(parse_hex_u16("0x0084"), Ok(0x0084));
    assert_eq!(parse_hex_u16("0084"), Ok(0x0084));
    assert_eq!(parse_hex_u16("0X00aa"), Ok(0x00AA));
    assert_eq!(parse_hex_u16("0x0X5c"), Ok(0x5C));
    assert_eq!(parse_hex_u8("0x3f"), Ok(0x3F));
    assert_eq!(parse_hex_u8("ff"), Ok(0xFF));
}

#[test]
fn hex_fields_refuse_bad_values() {
    assert_eq!(parse_hex_u16("0x"), Err(IntErrorKind::Empty));
    assert_eq!(parse_hex_u16("0xzz"), Err(IntErrorKind::InvalidDigit));
    assert_eq!(parse_hex_u16("0x10000"), Err(IntErrorKind::PosOverflow));
    assert_eq!(parse_hex_u8("0x100"), Err(IntErrorKind::PosOverflow));
    // Only a leading "0x" (then "0X") prefix is removed, not "0X" then "0x".
    assert_eq!(parse_hex_u16("0X0x5c"), Err(IntErrorKind::InvalidDigit));
}

#[test]
fn defaults_and_empty_capabilities() {
    assert_eq!(DEFAULT_TRANSACTION_ID, 0xFF);
    assert_eq!(DEFAULT_WAIT_US, 600);
    let c = Capabilities::default();
    assert!(!c.lighting && !c.dpi && !c.dpi_stages && !c.polling_rate && !c.battery && !c.onboard);
}

#[test]
fn effect_names_parse() {
    assert_eq!(Effect::parse("static"), Some(Effect::Static));
    assert_eq!(Effect::parse("breathing"), Some(Effect::Breathing));
    assert_eq!(Effect::parse("spectrum"), Some(Effect::Spectrum));
    assert_eq!(Effect::parse("wave"), Some(Effect::Wave));
    assert_eq!(Effect::parse("reactive"), Some(Effect::Reactive));
    assert_eq!(Effect::parse("none"), Some(Effect::Off));
    assert_eq!(Effect::parse("Static"), None);
    assert_eq!(Effect::parse("starlight"), None);
}
