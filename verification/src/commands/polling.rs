//! Polling-rate commands (class `0x00`): the classic 3-rate command and the
//! HyperPolling v2 8-rate command.
use vstd::prelude::*;

use crate::report::RazerReport;

verus! {

/// Polling-rate command class.
pub const CLASS: u8 = 0x00;

/// Classic set-polling-rate command id.
pub const CMD_SET: u8 = 0x05;

/// Classic get-polling-rate command id.
pub const CMD_GET: u8 = 0x85;

/// HyperPolling v2 set-polling-rate command id.
pub const CMD_SET_V2: u8 = 0x40;

/// HyperPolling v2 get-polling-rate command id.
pub const CMD_GET_V2: u8 = 0xC0;

/// Classic wire code for a rate in Hz; unknown rates get 500 Hz's code.
pub open spec fn spec_code_v1(hz: u16) -> u8 {
    if hz == 1000 {
        0x01
    } else if hz == 500 {
        0x02
    } else if hz == 125 {
        0x08
    } else {
        0x02
    }
}

/// The rate in Hz that a classic wire code stands for, if it stands for one.
pub open spec fn spec_hz_from_code_v1(code: u8) -> Option<u16> {
    if code == 0x01 {
        Some(1000u16)
    } else if code == 0x02 {
        Some(500u16)
    } else if code == 0x08 {
        Some(125u16)
    } else {
        None
    }
}

/// Map a polling rate in Hz to the classic (3-rate) wire code. Unknown rates
/// fall back to 500 Hz.
pub fn code_v1(hz: u16) -> (c: u8)
    ensures
        c == spec_code_v1(hz),
{
    match hz {
        1000 => 0x01,
        500 => 0x02,
        125 => 0x08,
        _ => 0x02,
    }
}

/// Reverse of `code_v1`: map a wire code back to Hz, if recognized.
pub fn hz_from_code_v1(code: u8) -> (r: Option<u16>)
    ensures
        r == spec_hz_from_code_v1(code),
{
    match code {
        0x01 => Some(1000),
        0x02 => Some(500),
        0x08 => Some(125),
        _ => None,
    }
}

/// HyperPolling v2 wire code for a rate in Hz; unknown rates get 500 Hz's
/// code.
pub open spec fn spec_code_v2(hz: u16) -> u8 {
    if hz == 8000 {
        0x01
    } else if hz == 4000 {
        0x02
    } else if hz == 2000 {
        0x04
    } else if hz == 1000 {
        0x08
    } else if hz == 500 {
        0x10
    } else if hz == 250 {
        0x20
    } else if hz == 125 {
        0x40
    } else {
        0x10
    }
}

/// The rate in Hz that a HyperPolling v2 wire code stands for, if any.
pub open spec fn spec_hz_from_code_v2(code: u8) -> Option<u16> {
    if code == 0x01 {
        Some(8000u16)
    } else if code == 0x02 {
        Some(4000u16)
    } else if code == 0x04 {
        Some(2000u16)
    } else if code == 0x08 {
        Some(1000u16)
    } else if code == 0x10 {
        Some(500u16)
    } else if code == 0x20 {
        Some(250u16)
    } else if code == 0x40 {
        Some(125u16)
    } else {
        None
    }
}

/// Map a polling rate in Hz to the HyperPolling v2 (8-rate) wire code.
/// Unknown rates fall back to 500 Hz.
pub fn code_v2(hz: u16) -> (c: u8)
    ensures
        c == spec_code_v2(hz),
{
    match hz {
        8000 => 0x01,
        4000 => 0x02,
        2000 => 0x04,
        1000 => 0x08,
        500 => 0x10,
        250 => 0x20,
        125 => 0x40,
        _ => 0x10,
    }
}

/// Reverse of `code_v2`: map a wire code back to Hz, if recognized.
pub fn hz_from_code_v2(code: u8) -> (r: Option<u16>)
    ensures
        r == spec_hz_from_code_v2(code),
{
    match code {
        0x01 => Some(8000),
        0x02 => Some(4000),
        0x04 => Some(2000),
        0x08 => Some(1000),
        0x10 => Some(500),
        0x20 => Some(250),
        0x40 => Some(125),
        _ => None,
    }
}

/// A classic rate reads back as itself when it is one of 125/500/1000 Hz,
/// and as 500 Hz otherwise; every recognized code maps back to itself.
pub proof fn lemma_code_v1_round_trip(hz: u16, code: u8)
    ensures
        spec_hz_from_code_v1(spec_code_v1(hz)) == Some(
            if hz == 1000 || hz == 500 || hz == 125 {
                hz
            } else {
                500u16
            },
        ),
        spec_hz_from_code_v1(code) matches Some(h) ==> spec_code_v1(h) == code,
{
}

/// A HyperPolling v2 rate reads back as itself when it is one of the eight
/// supported rates, and as 500 Hz otherwise; every recognized code maps back
/// to itself.
pub proof fn lemma_code_v2_round_trip(hz: u16, code: u8)
    ensures
        spec_hz_from_code_v2(spec_code_v2(hz)) == Some(
            if hz == 8000 || hz == 4000 || hz == 2000 || hz == 1000 || hz == 500 || hz == 250
                || hz == 125 {
                hz
            } else {
                500u16
            },
        ),
        spec_hz_from_code_v2(code) matches Some(h) ==> spec_code_v2(h) == code,
{
}

/// Build a classic set-polling-rate request.
pub fn build_set_polling_rate(transaction_id: u8, hz: u16) -> (r: RazerReport)
    ensures
        r.is_request(transaction_id, CLASS, CMD_SET, seq![spec_code_v1(hz)]),
{
    let args = [code_v1(hz)];
    assert(args@ =~= seq![spec_code_v1(hz)]);
    RazerReport::new(transaction_id, CLASS, CMD_SET, &args)
}

/// Build a classic get-polling-rate request.
pub fn build_get_polling_rate(transaction_id: u8) -> (r: RazerReport)
    ensures
        r.is_request(transaction_id, CLASS, CMD_GET, seq![0u8]),
{
    let args = [0u8];
    assert(args@ =~= seq![0u8]);
    RazerReport::new(transaction_id, CLASS, CMD_GET, &args)
}

/// Parse the wire code out of a classic get-polling-rate response.
pub fn parse_polling_rate(report: &RazerReport) -> (c: u8)
    ensures
        c == report.arguments@[0],
{
    report.arguments[0]
}

/// Build a HyperPolling v2 set-polling-rate request. `argument` is an opaque
/// per-device selector byte; pass `0x00` when the device doesn't
/// distinguish.
pub fn build_set_polling_rate_v2(transaction_id: u8, hz: u16, argument: u8) -> (r: RazerReport)
    ensures
        r.is_request(transaction_id, CLASS, CMD_SET_V2, seq![argument, spec_code_v2(hz)]),
{
    let args = [argument, code_v2(hz)];
    assert(args@ =~= seq![argument, spec_code_v2(hz)]);
    RazerReport::new(transaction_id, CLASS, CMD_SET_V2, &args)
}

/// Build a HyperPolling v2 get-polling-rate request.
pub fn build_get_polling_rate_v2(transaction_id: u8) -> (r: RazerReport)
    ensures
        r.is_request(transaction_id, CLASS, CMD_GET_V2, seq![0u8]),
{
    let args = [0u8];
    assert(args@ =~= seq![0u8]);
    RazerReport::new(transaction_id, CLASS, CMD_GET_V2, &args)
}

/// Parse the wire code out of a HyperPolling v2 get-polling-rate response.
pub fn parse_polling_rate_v2(report: &RazerReport) -> (c: u8)
    ensures
        c == report.arguments@[0],
{
    report.arguments[0]
}

} // verus!
