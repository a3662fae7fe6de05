use razer_hid::transport::{
    candidate_order, feature_frame, parse_feature_frame, payload_step, HidInfo, PayloadAction,
    HID_BUF_SIZE, MAX_BUSY_RETRIES,
};
use razer_hid::{status, RazerReport, TransportError, RAZER_VID};

fn response(status_byte: u8, class: u8, id: u8) -> RazerReport {
    let mut r = RazerReport::new(0x3F, class, id, &[0x01, 0x02]);
    r.status = status_byte;
    r
}

#[test]
fn frame_is_report_id_then_wire_bytes() {
    let report = RazerReport::new(0x3F, 0x04, 0x85, &[0x01]);
    let frame = feature_frame(&report);
    assert_eq!(frame.len(), HID_BUF_SIZE);
    assert_eq!(frame[0], 0);
    assert_eq!(&frame[1..], &report.to_bytes()[..]);
}

#[test]
fn frame_round_trips() {
    let report = RazerReport::new(0x1F, 0x00, 0x82, &[0xAA, 0xBB]);
    let frame = feature_frame(&report);
    assert_eq!(parse_feature_frame(&frame, HID_BUF_SIZE), Ok(report));
}

#[test]
fn short_read_is_an_error() {
    let frame = [0u8; HID_BUF_SIZE];
    assert_eq!(
        parse_feature_frame(&frame, 12),
        Err(TransportError::ShortRead { expected: 91, got: 12 })
    );
}

#[test]
fn busy_is_retried_until_the_limit() {
    let busy = response(status::BUSY, 0x04, 0x05);
    assert_eq!(payload_step(0, 0x04, 0x05, busy.clone()), PayloadAction::RetryAfterBusy);
    assert_eq!(
        payload_step(MAX_BUSY_RETRIES - 1, 0x04, 0x05, busy.clone()),
        PayloadAction::RetryAfterBusy
    );
    assert_eq!(
        payload_step(MAX_BUSY_RETRIES, 0x04, 0x05, busy),
        PayloadAction::Finish(Err(TransportError::BusyExhausted(5)))
    );
}

#[test]
fn success_must_echo_the_command() {
    let ok = response(status::SUCCESSFUL, 0x04, 0x85);
    assert_eq!(payload_step(0, 0x04, 0x85, ok.clone()), PayloadAction::Finish(Ok(ok.clone())));
    assert_eq!(
        payload_step(0, 0x04, 0x05, ok),
        PayloadAction::Finish(Err(TransportError::EchoMismatch {
            sent_class: 0x04,
            sent_id: 0x05,
            got_class: 0x04,
            got_id: 0x85,
        }))
    );
}

#[test]
fn failure_status_fails_the_command() {
    let failed = response(status::FAILURE, 0x00, 0x82);
    assert_eq!(
        payload_step(2, 0x00, 0x82, failed),
        PayloadAction::Finish(Err(TransportError::CommandFailed {
            status: status::FAILURE,
            class: 0x00,
            id: 0x82,
        }))
    );
}

#[test]
fn vendor_interfaces_are_tried_first() {
    let infos = [
        HidInfo { vendor_id: RAZER_VID, product_id: 0x0084, usage_page: 0x0001 },
        HidInfo { vendor_id: 0x046D, product_id: 0x0084, usage_page: 0xFF00 },
        HidInfo { vendor_id: RAZER_VID, product_id: 0x0084, usage_page: 0xFF00 },
        HidInfo { vendor_id: RAZER_VID, product_id: 0x005C, usage_page: 0xFF00 },
        HidInfo { vendor_id: RAZER_VID, product_id: 0x0084, usage_page: 0x000C },
    ];
    assert_eq!(candidate_order(&infos, 0x0084), Ok(vec![2, 0, 4]));
    assert_eq!(candidate_order(&infos, 0x005C), Ok(vec![3]));
}

#[test]
fn absent_device_is_not_found() {
    let infos = [HidInfo { vendor_id: RAZER_VID, product_id: 0x0084, usage_page: 0xFF00 }];
    assert_eq!(
        candidate_order(&infos, 0x0099),
        Err(TransportError::DeviceNotFound { pid: 0x0099 })
    );
    assert_eq!(candidate_order(&[], 0x0084), Err(TransportError::DeviceNotFound { pid: 0x0084 }));
}
