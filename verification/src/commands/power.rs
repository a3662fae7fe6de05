//! Battery / power commands (class `0x07`).
use vstd::prelude::*;

use crate::commands::{be_value, hi_byte, join_be, lo_byte, split_be};
use crate::report::RazerReport;

verus! {

/// Battery/power command class.
pub const CLASS: u8 = 0x07;

/// Get battery level (response argument byte 1 = 0..=255, scaled by 100/255).
pub const CMD_GET_LEVEL: u8 = 0x80;

/// Get charging status (response argument byte 1 = 0/1).
pub const CMD_GET_CHARGING: u8 = 0x84;

/// Set low-battery threshold (0x0C..=0x3F, roughly 5-25%).
pub const CMD_SET_LOW_BATTERY_THRESHOLD: u8 = 0x01;

/// Get low-battery threshold.
pub const CMD_GET_LOW_BATTERY_THRESHOLD: u8 = 0x81;

/// Set idle time in seconds (big-endian u16, clamped 60..=900).
pub const CMD_SET_IDLE_TIME: u8 = 0x03;

/// Get idle time.
pub const CMD_GET_IDLE_TIME: u8 = 0x83;

/// Lowest low-battery threshold sent.
pub const LOW_BATTERY_THRESHOLD_MIN: u8 = 0x0C;

/// Highest low-battery threshold sent.
pub const LOW_BATTERY_THRESHOLD_MAX: u8 = 0x3F;

/// Shortest idle timeout sent, in seconds.
pub const IDLE_TIME_MIN: u16 = 60;

/// Longest idle timeout sent, in seconds.
pub const IDLE_TIME_MAX: u16 = 900;

/// Build a get-battery-level request.
pub fn build_get_battery_level(transaction_id: u8) -> (r: RazerReport)
    ensures
        r.is_request(transaction_id, CLASS, CMD_GET_LEVEL, seq![0u8, 0u8]),
{
    let args = [0u8, 0u8];
    assert(args@ =~= seq![0u8, 0u8]);
    RazerReport::new(transaction_id, CLASS, CMD_GET_LEVEL, &args)
}

/// The battery percentage for raw level `raw` (0..=255): `raw * 100 / 255`,
/// rounded down.
pub open spec fn battery_percent(raw: u8) -> u8 {
    (raw * 100 / 255) as u8
}

/// Parse the battery level (percent, 0..=100) out of a get-battery-level
/// response.
pub fn parse_battery_level(report: &RazerReport) -> (p: u8)
    ensures
        p == battery_percent(report.arguments@[1]),
        p <= 100,
{
    ((report.arguments[1] as u32 * 100) / 255) as u8
}

/// Build a get-charging-status request.
pub fn build_get_charging_status(transaction_id: u8) -> (r: RazerReport)
    ensures
        r.is_request(transaction_id, CLASS, CMD_GET_CHARGING, seq![0u8, 0u8]),
{
    let args = [0u8, 0u8];
    assert(args@ =~= seq![0u8, 0u8]);
    RazerReport::new(transaction_id, CLASS, CMD_GET_CHARGING, &args)
}

/// Parse the charging flag out of a get-charging-status response.
pub fn parse_charging_status(report: &RazerReport) -> (c: bool)
    ensures
        c == (report.arguments@[1] != 0),
{
    report.arguments[1] != 0
}

/// `v` clamped to the low-battery threshold range.
pub open spec fn clamped_threshold(v: u8) -> u8 {
    if v < LOW_BATTERY_THRESHOLD_MIN {
        LOW_BATTERY_THRESHOLD_MIN
    } else if v > LOW_BATTERY_THRESHOLD_MAX {
        LOW_BATTERY_THRESHOLD_MAX
    } else {
        v
    }
}

fn clamp_threshold(v: u8) -> (r: u8)
    ensures
        r == clamped_threshold(v),
{
    if v < LOW_BATTERY_THRESHOLD_MIN {
        LOW_BATTERY_THRESHOLD_MIN
    } else if v > LOW_BATTERY_THRESHOLD_MAX {
        LOW_BATTERY_THRESHOLD_MAX
    } else {
        v
    }
}

/// Build a set-low-battery-threshold request. `threshold` is clamped to
/// `0x0C..=0x3F`.
pub fn build_set_low_battery_threshold(transaction_id: u8, threshold: u8) -> (r: RazerReport)
    ensures
        r.is_request(
            transaction_id,
            CLASS,
            CMD_SET_LOW_BATTERY_THRESHOLD,
            seq![clamped_threshold(threshold)],
        ),
{
    let args = [clamp_threshold(threshold)];
    assert(args@ =~= seq![clamped_threshold(threshold)]);
    RazerReport::new(transaction_id, CLASS, CMD_SET_LOW_BATTERY_THRESHOLD, &args)
}

/// Build a get-low-battery-threshold request.
pub fn build_get_low_battery_threshold(transaction_id: u8) -> (r: RazerReport)
    ensures
        r.is_request(transaction_id, CLASS, CMD_GET_LOW_BATTERY_THRESHOLD, seq![0u8]),
{
    let args = [0u8];
    assert(args@ =~= seq![0u8]);
    RazerReport::new(transaction_id, CLASS, CMD_GET_LOW_BATTERY_THRESHOLD, &args)
}

/// Parse the threshold byte out of a get-low-battery-threshold response.
pub fn parse_low_battery_threshold(report: &RazerReport) -> (t: u8)
    ensures
        t == report.arguments@[0],
{
    report.arguments[0]
}

/// `v` clamped to the idle-time range.
pub open spec fn clamped_idle(v: u16) -> u16 {
    if v < IDLE_TIME_MIN {
        IDLE_TIME_MIN
    } else if v > IDLE_TIME_MAX {
        IDLE_TIME_MAX
    } else {
        v
    }
}

fn clamp_idle(v: u16) -> (r: u16)
    ensures
        r == clamped_idle(v),
{
    if v < IDLE_TIME_MIN {
        IDLE_TIME_MIN
    } else if v > IDLE_TIME_MAX {
        IDLE_TIME_MAX
    } else {
        v
    }
}

/// Argument bytes of a set-idle-time request: the clamped seconds,
/// big-endian.
pub open spec fn set_idle_args(seconds: u16) -> Seq<u8> {
    seq![hi_byte(clamped_idle(seconds)), lo_byte(clamped_idle(seconds))]
}

/// Build a set-idle-time request. `seconds` is clamped to `60..=900`.
pub fn build_set_idle_time(transaction_id: u8, seconds: u16) -> (r: RazerReport)
    ensures
        r.is_request(transaction_id, CLASS, CMD_SET_IDLE_TIME, set_idle_args(seconds)),
{
    let secs = clamp_idle(seconds);
    let (hi, lo) = split_be(secs);
    let args = [hi, lo];
    assert(args@ =~= set_idle_args(seconds));
    RazerReport::new(transaction_id, CLASS, CMD_SET_IDLE_TIME, &args)
}

/// Build a get-idle-time request.
pub fn build_get_idle_time(transaction_id: u8) -> (r: RazerReport)
    ensures
        r.is_request(transaction_id, CLASS, CMD_GET_IDLE_TIME, seq![0u8, 0u8]),
{
    let args = [0u8, 0u8];
    assert(args@ =~= seq![0u8, 0u8]);
    RazerReport::new(transaction_id, CLASS, CMD_GET_IDLE_TIME, &args)
}

/// Parse the idle time (seconds, big-endian in argument bytes 0..=1) out of
/// a get-idle-time response.
pub fn parse_idle_time(report: &RazerReport) -> (s: u16)
    ensures
        s == be_value(report.arguments@[0], report.arguments@[1]),
{
    join_be(report.arguments[0], report.arguments[1])
}

/// A set-idle-time request read back as a get-idle-time response yields the
/// clamped seconds that were sent.
pub proof fn lemma_idle_time_round_trip(r: RazerReport, transaction_id: u8, seconds: u16)
    requires
        r.is_request(transaction_id, CLASS, CMD_SET_IDLE_TIME, set_idle_args(seconds)),
    ensures
        be_value(r.arguments@[0], r.arguments@[1]) == clamped_idle(seconds),
{
    assert(r.arguments@[0] == set_idle_args(seconds)[0]);
    assert(r.arguments@[1] == set_idle_args(seconds)[1]);
}

} // verus!
