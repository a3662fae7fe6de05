//! Device info / mode commands (class `0x00`): serial number, firmware
//! version, and driver/normal device mode.
use vstd::prelude::*;

use crate::report::RazerReport;

pub mod mode;

verus! {

/// Device-info command class.
pub const CLASS: u8 = 0x00;

/// Get serial number (22 ASCII bytes).
pub const CMD_GET_SERIAL: u8 = 0x82;

/// Serial number length in bytes.
pub const SERIAL_LEN: usize = 0x16;

/// Get firmware version (response argument bytes 0 and 1 = major, minor).
pub const CMD_GET_FIRMWARE: u8 = 0x81;

/// Set device mode (byte 0 = mode, byte 1 = param, always 0x00).
pub const CMD_SET_MODE: u8 = 0x04;

/// Get device mode.
pub const CMD_GET_MODE: u8 = 0x84;

/// `n` zero bytes.
pub open spec fn zeros(n: nat) -> Seq<u8> {
    Seq::new(n, |i: int| 0u8)
}

/// Build a get-serial-number request.
pub fn build_get_serial(transaction_id: u8) -> (r: RazerReport)
    ensures
        r.is_request(transaction_id, CLASS, CMD_GET_SERIAL, zeros(SERIAL_LEN as nat)),
{
    let args = [0u8; 22];
    assert(args@ =~= zeros(SERIAL_LEN as nat));
    RazerReport::new(transaction_id, CLASS, CMD_GET_SERIAL, &args)
}

/// Number of leading non-zero bytes of `s`: the index of its first NUL, or
/// its length when it holds none.
pub open spec fn nul_index(s: Seq<u8>) -> nat
    decreases s.len(),
{
    if s.len() == 0 {
        0
    } else if s[0] == 0 {
        0
    } else {
        1 + nul_index(s.drop_first())
    }
}

/// The serial-number bytes of a get-serial response: the first `SERIAL_LEN`
/// argument bytes, cut at the first NUL.
pub open spec fn serial_bytes(args: Seq<u8>) -> Seq<u8> {
    let raw = args.take(SERIAL_LEN as int);
    raw.take(nul_index(raw) as int)
}

/// What a lossy UTF-8 decode makes of `bytes`: valid sequences decoded,
/// each invalid one replaced by U+FFFD.
pub uninterp spec fn lossy_utf8(bytes: Seq<u8>) -> Seq<char>;

/// Every byte below 0x80.
pub open spec fn all_ascii(bytes: Seq<u8>) -> bool {
    forall|k: int| 0 <= k < bytes.len() ==> bytes[k] < 0x80
}

/// `String::from_utf8_lossy`, made owned. Its result is named by
/// `lossy_utf8`; the one fact stated of it is that ASCII bytes decode to the
/// same characters one for one, as the std documentation of UTF-8 decoding
/// implies.
#[verifier::external_body]
fn decode_lossy(bytes: &[u8]) -> (s: String)
    ensures
        s@ == lossy_utf8(bytes@),
        all_ascii(bytes@) ==> s@ == bytes@.map_values(|b: u8| b as char),
{
    String::from_utf8_lossy(bytes).into_owned()
}

proof fn lemma_nul_index(s: Seq<u8>, i: int)
    requires
        0 <= i <= s.len(),
        forall|k: int| 0 <= k < i ==> s[k] != 0,
        i == s.len() || s[i] == 0,
    ensures
        nul_index(s) == i,
    decreases i,
{
    if i > 0 {
        lemma_nul_index(s.drop_first(), i - 1);
    }
}

/// Parse the serial number out of a get-serial response: the first
/// `SERIAL_LEN` argument bytes up to the first NUL, decoded as UTF-8
/// (lossily).
pub fn parse_serial(report: &RazerReport) -> (s: String)
    ensures
        s@ == lossy_utf8(serial_bytes(report.arguments@)),
        all_ascii(serial_bytes(report.arguments@)) ==> s@ == serial_bytes(
            report.arguments@,
        ).map_values(|b: u8| b as char),
{
    let mut end: usize = 0;
    while end < SERIAL_LEN && report.arguments[end] != 0
        invariant
            end <= SERIAL_LEN,
            forall|k: int| 0 <= k < end ==> report.arguments@[k] != 0,
        decreases SERIAL_LEN - end,
    {
        end = end + 1;
    }
    let ghost raw = report.arguments@.take(SERIAL_LEN as int);
    proof {
        lemma_nul_index(raw, end as int);
    }
    let mut bytes: Vec<u8> = Vec::new();
    let mut i: usize = 0;
    while i < end
        invariant
            end <= SERIAL_LEN,
            i <= end,
            bytes@ =~= report.arguments@.take(i as int),
        decreases end - i,
    {
        bytes.push(report.arguments[i]);
        i = i + 1;
    }
    assert(bytes@ =~= serial_bytes(report.arguments@));
    decode_lossy(bytes.as_slice())
}

/// Build a get-firmware-version request.
pub fn build_get_firmware_version(transaction_id: u8) -> (r: RazerReport)
    ensures
        r.is_request(transaction_id, CLASS, CMD_GET_FIRMWARE, seq![0u8, 0u8]),
{
    let args = [0u8, 0u8];
    assert(args@ =~= seq![0u8, 0u8]);
    RazerReport::new(transaction_id, CLASS, CMD_GET_FIRMWARE, &args)
}

/// Parse `(major, minor)` out of a get-firmware-version response.
pub fn parse_firmware_version(report: &RazerReport) -> (r: (u8, u8))
    ensures
        r == (report.arguments@[0], report.arguments@[1]),
{
    (report.arguments[0], report.arguments[1])
}

/// The mode byte actually sent for `requested_mode`: normal and driver mode
/// pass through, anything else becomes normal mode.
pub open spec fn coerced_mode(requested_mode: u8) -> u8 {
    if requested_mode == mode::NORMAL || requested_mode == mode::DRIVER {
        requested_mode
    } else {
        mode::NORMAL
    }
}

/// Build a set-device-mode request. A mode other than normal or driver is
/// sent as normal mode, and the param byte is always 0x00.
pub fn build_set_device_mode(transaction_id: u8, requested_mode: u8) -> (r: RazerReport)
    ensures
        r.is_request(transaction_id, CLASS, CMD_SET_MODE, seq![coerced_mode(requested_mode), 0u8]),
{
    let coerced = if requested_mode == mode::NORMAL || requested_mode == mode::DRIVER {
        requested_mode
    } else {
        mode::NORMAL
    };
    let args = [coerced, 0x00];
    assert(args@ =~= seq![coerced_mode(requested_mode), 0u8]);
    RazerReport::new(transaction_id, CLASS, CMD_SET_MODE, &args)
}

/// Build a get-device-mode request.
pub fn build_get_device_mode(transaction_id: u8) -> (r: RazerReport)
    ensures
        r.is_request(transaction_id, CLASS, CMD_GET_MODE, seq![0u8, 0u8]),
{
    let args = [0u8, 0u8];
    assert(args@ =~= seq![0u8, 0u8]);
    RazerReport::new(transaction_id, CLASS, CMD_GET_MODE, &args)
}

/// Parse `(mode, param)` out of a get-device-mode response.
pub fn parse_device_mode(report: &RazerReport) -> (r: (u8, u8))
    ensures
        r == (report.arguments@[0], report.arguments@[1]),
{
    (report.arguments[0], report.arguments[1])
}

} // verus!
