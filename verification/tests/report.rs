use razer_hid::report::{RazerReport, REPORT_SIZE};

#[test]
fn pack_unpack_round_trip() {
    let report = RazerReport::new(0x3F, 0x04, 0x05, &[0x01, 0x02, 0x03, 0x04, 0x05]);
    let bytes = report.to_bytes();
    assert_eq!(bytes.len(), REPORT_SIZE);
    let parsed = RazerReport::from_bytes(&bytes);
    assert_eq!(report, parsed);
}

#[test]
fn constructor_sets_data_size() {
    let args = [0xAA, 0xBB, 0xCC];
    let report = RazerReport::new(0xFF, 0x00, 0x82, &args);
    assert_eq!(report.data_size, 3);
    assert_eq!(&report.arguments[..3], &args);
    // Remaining arg bytes must be zero-filled.
    assert!(report.arguments[3..].iter().all(|&b| b == 0));
}

#[test]
fn crc_matches_independent_xor() {
    let tx = 0x1F;
    let class = 0x0F;
    let cmd = 0x02;
    let args = [0x01, 0x00, 0x01, 0x03]; // varstore, led, effect=spectrum
    let report = RazerReport::new(tx, class, cmd, &args);

    let mut expected = 0u8;
    expected ^= 0x00; // remaining_packets[0]
    expected ^= 0x00; // remaining_packets[1]
    expected ^= 0x00; // protocol_type
    expected ^= args.len() as u8; // data_size = 4
    expected ^= class;
    expected ^= cmd;
    for &b in &args {
        expected ^= b;
    }
    assert_eq!(report.crc, expected);
    assert!(report.crc_valid());

    let manual = 0x04u8 ^ 0x0F ^ 0x02 ^ 0x01 ^ 0x00 ^ 0x01 ^ 0x03;
    assert_eq!(report.crc, manual);
}

#[test]
fn crc_placed_at_byte_88() {
    let report = RazerReport::new(0xFF, 0x00, 0x81, &[]);
    let bytes = report.to_bytes();
    assert_eq!(bytes[88], report.crc);
    assert_eq!(bytes[89], 0x00); // reserved
}

#[test]
fn remaining_packets_is_big_endian_bytes() {
    let mut report = RazerReport::new(0xFF, 0x00, 0x00, &[]);
    report.remaining_packets = [0x12, 0x34]; // BE u16 = 0x1234
    let bytes = report.to_bytes();
    assert_eq!(bytes[2], 0x12);
    assert_eq!(bytes[3], 0x34);
}

#[test]
fn wire_layout_places_every_field() {
    let mut report = RazerReport::new(0x1F, 0x0F, 0x02, &[9, 8, 7]);
    report.status = 0x02;
    report.protocol_type = 0x00;
    report.reserved = 0x55;
    let bytes = report.to_bytes();
    assert_eq!(bytes[0], 0x02);
    assert_eq!(bytes[1], 0x1F);
    assert_eq!(bytes[5], 3);
    assert_eq!(bytes[6], 0x0F);
    assert_eq!(bytes[7], 0x02);
    assert_eq!(&bytes[8..11], &[9, 8, 7]);
    assert!(bytes[11..88].iter().all(|&b| b == 0));
    assert_eq!(bytes[89], 0x55);
}

#[test]
fn bytes_round_trip_from_arbitrary_buffer() {
    let mut buf = [0u8; REPORT_SIZE];
    for (i, b) in buf.iter_mut().enumerate() {
        *b = (i * 7 + 3) as u8;
    }
    let report = RazerReport::from_bytes(&buf);
    assert_eq!(report.to_bytes(), buf);
    assert_eq!(report.status, buf[0]);
    assert_eq!(report.remaining_packets, [buf[2], buf[3]]);
    assert_eq!(report.crc, buf[88]);
}

#[test]
fn checksum_ignores_status_and_transaction_id() {
    let a = RazerReport::new(0x1F, 0x04, 0x05, &[1, 2, 3]);
    let mut b = a.clone();
    b.status = 0x02;
    b.transaction_id = 0xFF;
    assert_eq!(a.compute_crc(), b.compute_crc());
    b.arguments[70] = 0x10;
    assert_eq!(b.compute_crc(), a.compute_crc() ^ 0x10);
    assert!(!b.crc_valid());
}

#[test]
fn default_report_fields() {
    let r = RazerReport::default();
    assert_eq!(r.status, 0);
    assert_eq!(r.transaction_id, 0xFF);
    assert_eq!(r.data_size, 0);
    assert!(r.arguments.iter().all(|&b| b == 0));
    assert_eq!(r.crc, 0);
}

#[test]
fn full_payload_fits() {
    let args = [0x5Au8; 80];
    let r = RazerReport::new(0x3F, 0x01, 0x02, &args);
    assert_eq!(r.data_size, 80);
    assert_eq!(r.arguments, args);
    assert!(r.crc_valid());
}
