//! Lighting commands: extended-matrix (modern devices, class `0x0F`) and the
//! classic/standard fallback (older devices, class `0x03`).
use vstd::prelude::*;

use crate::report::{zero_padded, RazerReport, MAX_ARGS};

pub mod ext_effect;
pub mod led_id;
pub mod std_effect;

verus! {

/// An RGB colour triplet.
pub type Rgb = [u8; 3];

/// Errors from building a lighting command whose payload is caller-supplied
/// (custom-frame rows).
#[derive(Debug, PartialEq, Eq, Structural)]
pub enum LightingError {
    /// The RGB data does not hold exactly three bytes per column.
    RowLengthMismatch { cols: u16, expected: usize, got: usize },
    /// The row does not fit in the argument block.
    RowTooLong { data_size: usize, max: usize },
}

/// Extended-matrix command class.
pub const EXT_CLASS: u8 = 0x0F;

/// Extended-matrix effect command id (byte 0 varstore, 1 led id, 2 effect).
pub const EXT_CMD_EFFECT: u8 = 0x02;

/// Extended-matrix custom-frame row upload command id.
pub const EXT_CMD_CUSTOM_FRAME_ROW: u8 = 0x03;

/// Extended-matrix set-brightness command id.
pub const EXT_CMD_BRIGHTNESS_SET: u8 = 0x04;

/// Extended-matrix get-brightness command id.
pub const EXT_CMD_BRIGHTNESS_GET: u8 = 0x84;

/// `v` clamped to `lo..=hi`.
pub open spec fn clamped(v: u8, lo: u8, hi: u8) -> u8 {
    if v < lo {
        lo
    } else if v > hi {
        hi
    } else {
        v
    }
}

fn clamp(v: u8, lo: u8, hi: u8) -> (r: u8)
    requires
        lo <= hi,
    ensures
        r == clamped(v, lo, hi),
{
    if v < lo {
        lo
    } else if v > hi {
        hi
    } else {
        v
    }
}

// -- extended matrix: effects ---------------------------------------------

/// Argument bytes of an extended-matrix "no effect" request.
pub open spec fn ext_none_args(varstore: u8, led_id: u8) -> Seq<u8> {
    seq![varstore, led_id, ext_effect::NONE, 0u8, 0u8, 0u8]
}

fn args_ext_none(varstore: u8, led_id: u8) -> (a: [u8; 6])
    ensures
        a@ == ext_none_args(varstore, led_id),
{
    let a = [varstore, led_id, ext_effect::NONE, 0, 0, 0];
    assert(a@ =~= ext_none_args(varstore, led_id));
    a
}

/// Build an extended-matrix "no effect" request.
pub fn build_ext_effect_none(transaction_id: u8, varstore: u8, led_id: u8) -> (r: RazerReport)
    ensures
        r.is_request(transaction_id, EXT_CLASS, EXT_CMD_EFFECT, ext_none_args(varstore, led_id)),
{
    RazerReport::new(transaction_id, EXT_CLASS, EXT_CMD_EFFECT, &args_ext_none(varstore, led_id))
}

/// Argument bytes of an extended-matrix static-colour request.
pub open spec fn ext_static_args(varstore: u8, led_id: u8, rgb: Rgb) -> Seq<u8> {
    seq![varstore, led_id, ext_effect::STATIC, 0u8, 0u8, 0x01u8, rgb[0], rgb[1], rgb[2]]
}

fn args_ext_static(varstore: u8, led_id: u8, rgb: Rgb) -> (a: [u8; 9])
    ensures
        a@ == ext_static_args(varstore, led_id, rgb),
{
    let a = [varstore, led_id, ext_effect::STATIC, 0, 0, 0x01, rgb[0], rgb[1], rgb[2]];
    assert(a@ =~= ext_static_args(varstore, led_id, rgb));
    a
}

/// Build an extended-matrix static-colour effect request.
pub fn build_ext_effect_static(transaction_id: u8, varstore: u8, led_id: u8, rgb: Rgb) -> (r:
    RazerReport)
    ensures
        r.is_request(
            transaction_id,
            EXT_CLASS,
            EXT_CMD_EFFECT,
            ext_static_args(varstore, led_id, rgb),
        ),
{
    RazerReport::new(
        transaction_id,
        EXT_CLASS,
        EXT_CMD_EFFECT,
        &args_ext_static(varstore, led_id, rgb),
    )
}

/// Argument bytes of an extended-matrix random-colour breathing request.
pub open spec fn ext_breathing_random_args(varstore: u8, led_id: u8) -> Seq<u8> {
    seq![varstore, led_id, ext_effect::BREATHING, 0u8, 0u8, 0u8]
}

fn args_ext_breathing_random(varstore: u8, led_id: u8) -> (a: [u8; 6])
    ensures
        a@ == ext_breathing_random_args(varstore, led_id),
{
    let a = [varstore, led_id, ext_effect::BREATHING, 0, 0, 0];
    assert(a@ =~= ext_breathing_random_args(varstore, led_id));
    a
}

/// Build an extended-matrix random-colour breathing effect request.
pub fn build_ext_effect_breathing_random(transaction_id: u8, varstore: u8, led_id: u8) -> (r:
    RazerReport)
    ensures
        r.is_request(
            transaction_id,
            EXT_CLASS,
            EXT_CMD_EFFECT,
            ext_breathing_random_args(varstore, led_id),
        ),
{
    RazerReport::new(
        transaction_id,
        EXT_CLASS,
        EXT_CMD_EFFECT,
        &args_ext_breathing_random(varstore, led_id),
    )
}

/// Argument bytes of an extended-matrix single-colour breathing request.
pub open spec fn ext_breathing_single_args(varstore: u8, led_id: u8, rgb: Rgb) -> Seq<u8> {
    seq![varstore, led_id, ext_effect::BREATHING, 0x01u8, 0u8, 0x01u8, rgb[0], rgb[1], rgb[2]]
}

fn args_ext_breathing_single(varstore: u8, led_id: u8, rgb: Rgb) -> (a: [u8; 9])
    ensures
        a@ == ext_breathing_single_args(varstore, led_id, rgb),
{
    let a = [varstore, led_id, ext_effect::BREATHING, 0x01, 0, 0x01, rgb[0], rgb[1], rgb[2]];
    assert(a@ =~= ext_breathing_single_args(varstore, led_id, rgb));
    a
}

/// Build an extended-matrix single-colour breathing effect request.
pub fn build_ext_effect_breathing_single(
    transaction_id: u8,
    varstore: u8,
    led_id: u8,
    rgb: Rgb,
) -> (r: RazerReport)
    ensures
        r.is_request(
            transaction_id,
            EXT_CLASS,
            EXT_CMD_EFFECT,
            ext_breathing_single_args(varstore, led_id, rgb),
        ),
{
    RazerReport::new(
        transaction_id,
        EXT_CLASS,
        EXT_CMD_EFFECT,
        &args_ext_breathing_single(varstore, led_id, rgb),
    )
}

/// Argument bytes of an extended-matrix dual-colour breathing request.
pub open spec fn ext_breathing_dual_args(varstore: u8, led_id: u8, rgb1: Rgb, rgb2: Rgb) -> Seq<
    u8,
> {
    seq![
        varstore,
        led_id,
        ext_effect::BREATHING,
        0x02u8,
        0u8,
        0x02u8,
        rgb1[0],
        rgb1[1],
        rgb1[2],
        rgb2[0],
        rgb2[1],
        rgb2[2],
    ]
}

fn args_ext_breathing_dual(varstore: u8, led_id: u8, rgb1: Rgb, rgb2: Rgb) -> (a: [u8; 12])
    ensures
        a@ == ext_breathing_dual_args(varstore, led_id, rgb1, rgb2),
{
    let a = [
        varstore,
        led_id,
        ext_effect::BREATHING,
        0x02,
        0,
        0x02,
        rgb1[0],
        rgb1[1],
        rgb1[2],
        rgb2[0],
        rgb2[1],
        rgb2[2],
    ];
    assert(a@ =~= ext_breathing_dual_args(varstore, led_id, rgb1, rgb2));
    a
}

/// Build an extended-matrix dual-colour breathing effect request.
pub fn build_ext_effect_breathing_dual(
    transaction_id: u8,
    varstore: u8,
    led_id: u8,
    rgb1: Rgb,
    rgb2: Rgb,
) -> (r: RazerReport)
    ensures
        r.is_request(
            transaction_id,
            EXT_CLASS,
            EXT_CMD_EFFECT,
            ext_breathing_dual_args(varstore, led_id, rgb1, rgb2),
        ),
{
    RazerReport::new(
        transaction_id,
        EXT_CLASS,
        EXT_CMD_EFFECT,
        &args_ext_breathing_dual(varstore, led_id, rgb1, rgb2),
    )
}

/// Argument bytes of an extended-matrix spectrum-cycling request.
pub open spec fn ext_spectrum_args(varstore: u8, led_id: u8) -> Seq<u8> {
    seq![varstore, led_id, ext_effect::SPECTRUM, 0u8, 0u8, 0u8]
}

fn args_ext_spectrum(varstore: u8, led_id: u8) -> (a: [u8; 6])
    ensures
        a@ == ext_spectrum_args(varstore, led_id),
{
    let a = [varstore, led_id, ext_effect::SPECTRUM, 0, 0, 0];
    assert(a@ =~= ext_spectrum_args(varstore, led_id));
    a
}

/// Build an extended-matrix spectrum-cycling effect request.
pub fn build_ext_effect_spectrum(transaction_id: u8, varstore: u8, led_id: u8) -> (r: RazerReport)
    ensures
        r.is_request(
            transaction_id,
            EXT_CLASS,
            EXT_CMD_EFFECT,
            ext_spectrum_args(varstore, led_id),
        ),
{
    RazerReport::new(
        transaction_id,
        EXT_CLASS,
        EXT_CMD_EFFECT,
        &args_ext_spectrum(varstore, led_id),
    )
}

/// Argument bytes of an extended-matrix wave request: direction clamped to
/// `0x00..=0x02`, fixed speed byte 0x28.
pub open spec fn ext_wave_args(varstore: u8, led_id: u8, direction: u8) -> Seq<u8> {
    seq![varstore, led_id, ext_effect::WAVE, clamped(direction, 0x00, 0x02), 0x28u8, 0u8]
}

fn args_ext_wave(varstore: u8, led_id: u8, direction: u8) -> (a: [u8; 6])
    ensures
        a@ == ext_wave_args(varstore, led_id, direction),
{
    let a = [varstore, led_id, ext_effect::WAVE, clamp(direction, 0x00, 0x02), 0x28, 0];
    assert(a@ =~= ext_wave_args(varstore, led_id, direction));
    a
}

/// Build an extended-matrix wave effect request. `direction` is clamped to
/// `0x00..=0x02`.
pub fn build_ext_effect_wave(transaction_id: u8, varstore: u8, led_id: u8, direction: u8) -> (r:
    RazerReport)
    ensures
        r.is_request(
            transaction_id,
            EXT_CLASS,
            EXT_CMD_EFFECT,
            ext_wave_args(varstore, led_id, direction),
        ),
{
    RazerReport::new(
        transaction_id,
        EXT_CLASS,
        EXT_CMD_EFFECT,
        &args_ext_wave(varstore, led_id, direction),
    )
}

/// Argument bytes of an extended-matrix reactive request: speed clamped to
/// `0x01..=0x04`, one colour.
pub open spec fn ext_reactive_args(varstore: u8, led_id: u8, speed: u8, rgb: Rgb) -> Seq<u8> {
    seq![
        varstore,
        led_id,
        ext_effect::REACTIVE,
        0u8,
        clamped(speed, 0x01, 0x04),
        0x01u8,
        rgb[0],
        rgb[1],
        rgb[2],
    ]
}

fn args_ext_reactive(varstore: u8, led_id: u8, speed: u8, rgb: Rgb) -> (a: [u8; 9])
    ensures
        a@ == ext_reactive_args(varstore, led_id, speed, rgb),
{
    let a = [
        varstore,
        led_id,
        ext_effect::REACTIVE,
        0,
        clamp(speed, 0x01, 0x04),
        0x01,
        rgb[0],
        rgb[1],
        rgb[2],
    ];
    assert(a@ =~= ext_reactive_args(varstore, led_id, speed, rgb));
    a
}

/// Build an extended-matrix reactive effect request. `speed` is clamped to
/// `0x01..=0x04`.
pub fn build_ext_effect_reactive(
    transaction_id: u8,
    varstore: u8,
    led_id: u8,
    speed: u8,
    rgb: Rgb,
) -> (r: RazerReport)
    ensures
        r.is_request(
            transaction_id,
            EXT_CLASS,
            EXT_CMD_EFFECT,
            ext_reactive_args(varstore, led_id, speed, rgb),
        ),
{
    RazerReport::new(
        transaction_id,
        EXT_CLASS,
        EXT_CMD_EFFECT,
        &args_ext_reactive(varstore, led_id, speed, rgb),
    )
}

/// Argument bytes of an extended-matrix random-colour starlight request:
/// speed clamped to `0x01..=0x03`.
pub open spec fn ext_starlight_random_args(varstore: u8, led_id: u8, speed: u8) -> Seq<u8> {
    seq![varstore, led_id, ext_effect::STARLIGHT, 0u8, clamped(speed, 0x01, 0x03), 0u8]
}

fn args_ext_starlight_random(varstore: u8, led_id: u8, speed: u8) -> (a: [u8; 6])
    ensures
        a@ == ext_starlight_random_args(varstore, led_id, speed),
{
    let a = [varstore, led_id, ext_effect::STARLIGHT, 0, clamp(speed, 0x01, 0x03), 0];
    assert(a@ =~= ext_starlight_random_args(varstore, led_id, speed));
    a
}

/// Build an extended-matrix random-colour starlight effect request. `speed`
/// is clamped to `0x01..=0x03`.
pub fn build_ext_effect_starlight_random(
    transaction_id: u8,
    varstore: u8,
    led_id: u8,
    speed: u8,
) -> (r: RazerReport)
    ensures
        r.is_request(
            transaction_id,
            EXT_CLASS,
            EXT_CMD_EFFECT,
            ext_starlight_random_args(varstore, led_id, speed),
        ),
{
    RazerReport::new(
        transaction_id,
        EXT_CLASS,
        EXT_CMD_EFFECT,
        &args_ext_starlight_random(varstore, led_id, speed),
    )
}

/// Argument bytes of an extended-matrix single-colour starlight request.
pub open spec fn ext_starlight_single_args(varstore: u8, led_id: u8, speed: u8, rgb: Rgb) -> Seq<
    u8,
> {
    seq![
        varstore,
        led_id,
        ext_effect::STARLIGHT,
        0u8,
        clamped(speed, 0x01, 0x03),
        0x01u8,
        rgb[0],
        rgb[1],
        rgb[2],
    ]
}

fn args_ext_starlight_single(varstore: u8, led_id: u8, speed: u8, rgb: Rgb) -> (a: [u8; 9])
    ensures
        a@ == ext_starlight_single_args(varstore, led_id, speed, rgb),
{
    let a = [
        varstore,
        led_id,
        ext_effect::STARLIGHT,
        0,
        clamp(speed, 0x01, 0x03),
        0x01,
        rgb[0],
        rgb[1],
        rgb[2],
    ];
    assert(a@ =~= ext_starlight_single_args(varstore, led_id, speed, rgb));
    a
}

/// Build an extended-matrix single-colour starlight effect request. `speed`
/// is clamped to `0x01..=0x03`.
pub fn build_ext_effect_starlight_single(
    transaction_id: u8,
    varstore: u8,
    led_id: u8,
    speed: u8,
    rgb: Rgb,
) -> (r: RazerReport)
    ensures
        r.is_request(
            transaction_id,
            EXT_CLASS,
            EXT_CMD_EFFECT,
            ext_starlight_single_args(varstore, led_id, speed, rgb),
        ),
{
    RazerReport::new(
        transaction_id,
        EXT_CLASS,
        EXT_CMD_EFFECT,
        &args_ext_starlight_single(varstore, led_id, speed, rgb),
    )
}

/// Argument bytes of an extended-matrix dual-colour starlight request.
pub open spec fn ext_starlight_dual_args(
    varstore: u8,
    led_id: u8,
    speed: u8,
    rgb1: Rgb,
    rgb2: Rgb,
) -> Seq<u8> {
    seq![
        varstore,
        led_id,
        ext_effect::STARLIGHT,
        0u8,
        clamped(speed, 0x01, 0x03),
        0x02u8,
        rgb1[0],
        rgb1[1],
        rgb1[2],
        rgb2[0],
        rgb2[1],
        rgb2[2],
    ]
}

fn args_ext_starlight_dual(varstore: u8, led_id: u8, speed: u8, rgb1: Rgb, rgb2: Rgb) -> (a: [u8;
    12])
    ensures
        a@ == ext_starlight_dual_args(varstore, led_id, speed, rgb1, rgb2),
{
    let a = [
        varstore,
        led_id,
        ext_effect::STARLIGHT,
        0,
        clamp(speed, 0x01, 0x03),
        0x02,
        rgb1[0],
        rgb1[1],
        rgb1[2],
        rgb2[0],
        rgb2[1],
        rgb2[2],
    ];
    assert(a@ =~= ext_starlight_dual_args(varstore, led_id, speed, rgb1, rgb2));
    a
}

/// Build an extended-matrix dual-colour starlight effect request. `speed` is
/// clamped to `0x01..=0x03`.
pub fn build_ext_effect_starlight_dual(
    transaction_id: u8,
    varstore: u8,
    led_id: u8,
    speed: u8,
    rgb1: Rgb,
    rgb2: Rgb,
) -> (r: RazerReport)
    ensures
        r.is_request(
            transaction_id,
            EXT_CLASS,
            EXT_CMD_EFFECT,
            ext_starlight_dual_args(varstore, led_id, speed, rgb1, rgb2),
        ),
{
    RazerReport::new(
        transaction_id,
        EXT_CLASS,
        EXT_CMD_EFFECT,
        &args_ext_starlight_dual(varstore, led_id, speed, rgb1, rgb2),
    )
}

/// Argument bytes of the extended-matrix "activate custom draw" request:
/// varstore and led id are always 0, the effect is CUSTOM, and the rest of
/// the 12 bytes are zero.
pub open spec fn ext_custom_draw_args() -> Seq<u8> {
    seq![0u8, 0u8, ext_effect::CUSTOM, 0u8, 0u8, 0u8, 0u8, 0u8, 0u8, 0u8, 0u8, 0u8]
}

fn args_ext_custom_draw() -> (a: [u8; 12])
    ensures
        a@ == ext_custom_draw_args(),
{
    let a = [0, 0, ext_effect::CUSTOM, 0, 0, 0, 0, 0, 0, 0, 0, 0];
    assert(a@ =~= ext_custom_draw_args());
    a
}

/// Build the extended-matrix "activate custom draw" effect request (arms the
/// device to display frames uploaded with `build_ext_custom_frame_row`).
pub fn build_ext_effect_custom_draw(transaction_id: u8) -> (r: RazerReport)
    ensures
        r.is_request(transaction_id, EXT_CLASS, EXT_CMD_EFFECT, ext_custom_draw_args()),
{
    RazerReport::new(transaction_id, EXT_CLASS, EXT_CMD_EFFECT, &args_ext_custom_draw())
}

/// Argument bytes of an extended-matrix wheel request: direction clamped to
/// `0x01..=0x02`, fixed speed byte 0x28.
pub open spec fn ext_wheel_args(varstore: u8, led_id: u8, direction: u8) -> Seq<u8> {
    seq![varstore, led_id, ext_effect::WHEEL, clamped(direction, 0x01, 0x02), 0x28u8, 0u8]
}

fn args_ext_wheel(varstore: u8, led_id: u8, direction: u8) -> (a: [u8; 6])
    ensures
        a@ == ext_wheel_args(varstore, led_id, direction),
{
    let a = [varstore, led_id, ext_effect::WHEEL, clamp(direction, 0x01, 0x02), 0x28, 0];
    assert(a@ =~= ext_wheel_args(varstore, led_id, direction));
    a
}

/// Build an extended-matrix "wheel" effect request. `direction` is clamped
/// to `0x01..=0x02`.
pub fn build_ext_effect_wheel(transaction_id: u8, varstore: u8, led_id: u8, direction: u8) -> (r:
    RazerReport)
    ensures
        r.is_request(
            transaction_id,
            EXT_CLASS,
            EXT_CMD_EFFECT,
            ext_wheel_args(varstore, led_id, direction),
        ),
{
    RazerReport::new(
        transaction_id,
        EXT_CLASS,
        EXT_CMD_EFFECT,
        &args_ext_wheel(varstore, led_id, direction),
    )
}

// -- extended matrix: brightness ------------------------------------------

fn args_ext_brightness_set(varstore: u8, led_id: u8, brightness: u8) -> (a: [u8; 3])
    ensures
        a@ == seq![varstore, led_id, brightness],
{
    let a = [varstore, led_id, brightness];
    assert(a@ =~= seq![varstore, led_id, brightness]);
    a
}

/// Build an extended-matrix set-brightness request (0..=255).
pub fn build_ext_brightness_set(transaction_id: u8, varstore: u8, led_id: u8, brightness: u8) -> (r:
    RazerReport)
    ensures
        r.is_request(
            transaction_id,
            EXT_CLASS,
            EXT_CMD_BRIGHTNESS_SET,
            seq![varstore, led_id, brightness],
        ),
{
    RazerReport::new(
        transaction_id,
        EXT_CLASS,
        EXT_CMD_BRIGHTNESS_SET,
        &args_ext_brightness_set(varstore, led_id, brightness),
    )
}

fn args_ext_brightness_get(varstore: u8, led_id: u8) -> (a: [u8; 3])
    ensures
        a@ == seq![varstore, led_id, 0u8],
{
    let a = [varstore, led_id, 0];
    assert(a@ =~= seq![varstore, led_id, 0u8]);
    a
}

/// Build an extended-matrix get-brightness request.
pub fn build_ext_brightness_get(transaction_id: u8, varstore: u8, led_id: u8) -> (r: RazerReport)
    ensures
        r.is_request(
            transaction_id,
            EXT_CLASS,
            EXT_CMD_BRIGHTNESS_GET,
            seq![varstore, led_id, 0u8],
        ),
{
    RazerReport::new(
        transaction_id,
        EXT_CLASS,
        EXT_CMD_BRIGHTNESS_GET,
        &args_ext_brightness_get(varstore, led_id),
    )
}

/// Parse the brightness value (0..=255) out of a get-brightness response.
pub fn parse_ext_brightness(report: &RazerReport) -> (b: u8)
    ensures
        b == report.arguments@[2],
{
    report.arguments[2]
}

/// A set-brightness request read back as a get-brightness response yields
/// the brightness that was sent.
pub proof fn lemma_ext_brightness_round_trip(
    r: RazerReport,
    transaction_id: u8,
    varstore: u8,
    led_id: u8,
    brightness: u8,
)
    requires
        r.is_request(
            transaction_id,
            EXT_CLASS,
            EXT_CMD_BRIGHTNESS_SET,
            seq![varstore, led_id, brightness],
        ),
    ensures
        r.arguments@[2] == brightness,
{
    assert(r.arguments@[2] == seq![varstore, led_id, brightness][2]);
}

// -- custom-frame rows ------------------------------------------------------

/// The number of columns `start_col..=stop_col` spans (0 when
/// `stop_col + 1 < start_col`).
pub open spec fn frame_cols(start_col: u8, stop_col: u8) -> u16 {
    if stop_col + 1 >= start_col {
        (stop_col + 1 - start_col) as u16
    } else {
        0u16
    }
}

/// The outcome of checking a custom-frame row's RGB data of `len` bytes
/// against its column span, given `header` bytes in front of the data: the
/// length must be three bytes per column, and the header and data must fit
/// in the argument block.
pub open spec fn frame_row_check(start_col: u8, stop_col: u8, len: nat, header: nat) -> Result<
    (),
    LightingError,
> {
    let cols = frame_cols(start_col, stop_col);
    if len != cols * 3 {
        Err(
            LightingError::RowLengthMismatch {
                cols,
                expected: (cols * 3) as usize,
                got: len as usize,
            },
        )
    } else if len + header > MAX_ARGS {
        Err(LightingError::RowTooLong { data_size: (len + header) as usize, max: MAX_ARGS })
    } else {
        Ok(())
    }
}

fn check_frame_row(start_col: u8, stop_col: u8, len: usize, header: usize) -> (r: Result<
    (),
    LightingError,
>)
    requires
        header <= MAX_ARGS,
    ensures
        r == frame_row_check(start_col, stop_col, len as nat, header as nat),
{
    let cols = (stop_col as u16 + 1).saturating_sub(start_col as u16);
    let expected = cols as usize * 3;
    if len != expected {
        return Err(LightingError::RowLengthMismatch { cols, expected, got: len });
    }
    if len + header > MAX_ARGS {
        return Err(LightingError::RowTooLong { data_size: len + header, max: MAX_ARGS });
    }
    Ok(())
}

/// Argument bytes of an extended-matrix custom-frame row upload: two unused
/// zero bytes, row index, start and stop column, then the RGB data.
pub open spec fn ext_frame_row_args(row_index: u8, start_col: u8, stop_col: u8, rgb: Seq<u8>) -> Seq<
    u8,
> {
    seq![0u8, 0u8, row_index, start_col, stop_col] + rgb
}

/// Build an extended-matrix custom-frame row-upload request: `row_index`
/// spans `start_col..=stop_col`, with `rgb` holding exactly
/// `(stop_col + 1 - start_col) * 3` bytes (one RGB triplet per column);
/// `data_size` is `rgb.len() + 5`.
pub fn build_ext_custom_frame_row(
    transaction_id: u8,
    row_index: u8,
    start_col: u8,
    stop_col: u8,
    rgb: &[u8],
) -> (r: Result<RazerReport, LightingError>)
    ensures
        r is Err <==> frame_row_check(start_col, stop_col, rgb@.len(), 5) is Err,
        r matches Err(e) ==> frame_row_check(start_col, stop_col, rgb@.len(), 5) == Err::<
            (),
            LightingError,
        >(e),
        r matches Ok(rep) ==> rep.is_request(
            transaction_id,
            EXT_CLASS,
            EXT_CMD_CUSTOM_FRAME_ROW,
            ext_frame_row_args(row_index, start_col, stop_col, rgb@),
        ),
{
    match check_frame_row(start_col, stop_col, rgb.len(), 5) {
        Err(e) => {
            return Err(e);
        },
        Ok(()) => {},
    }
    let data_size = rgb.len() + 5;
    let mut args: Vec<u8> = vec![0u8; data_size];
    args[2] = row_index;
    args[3] = start_col;
    args[4] = stop_col;
    let mut i: usize = 0;
    while i < rgb.len()
        invariant
            data_size == rgb@.len() + 5,
            args@.len() == data_size,
            i <= rgb@.len(),
            args@[0] == 0u8,
            args@[1] == 0u8,
            args@[2] == row_index,
            args@[3] == start_col,
            args@[4] == stop_col,
            forall|k: int| 0 <= k < i ==> args@[5 + k] == rgb@[k],
        decreases rgb@.len() - i,
    {
        args[5 + i] = rgb[i];
        i = i + 1;
    }
    assert(args@ =~= ext_frame_row_args(row_index, start_col, stop_col, rgb@));
    Ok(RazerReport::new(transaction_id, EXT_CLASS, EXT_CMD_CUSTOM_FRAME_ROW, args.as_slice()))
}

// -- standard/classic (older devices), class 0x03 ----------------------------

/// Classic/standard command class.
pub const STD_CLASS: u8 = 0x03;

/// Classic single-LED on/off state command id.
pub const STD_CMD_LED_STATE: u8 = 0x00;

/// Classic single-LED static RGB command id.
pub const STD_CMD_LED_RGB: u8 = 0x01;

/// Classic single-LED effect command id.
pub const STD_CMD_LED_EFFECT: u8 = 0x02;

/// Classic single-LED brightness command id.
pub const STD_CMD_LED_BRIGHTNESS: u8 = 0x03;

/// Classic whole-matrix effect command id.
pub const STD_CMD_MATRIX_EFFECT: u8 = 0x0A;

/// Classic whole-matrix custom-frame row upload command id.
pub const STD_CMD_MATRIX_CUSTOM_FRAME_ROW: u8 = 0x0B;

fn args_std_led_state(varstore: u8, led_id: u8, state: u8) -> (a: [u8; 3])
    ensures
        a@ == seq![varstore, led_id, clamped(state, 0x00, 0x01)],
{
    let a = [varstore, led_id, clamp(state, 0x00, 0x01)];
    assert(a@ =~= seq![varstore, led_id, clamped(state, 0x00, 0x01)]);
    a
}

/// Build a classic single-LED on/off request. `state` is clamped to
/// `0x00..=0x01`.
pub fn build_std_led_state(transaction_id: u8, varstore: u8, led_id: u8, state: u8) -> (r:
    RazerReport)
    ensures
        r.is_request(
            transaction_id,
            STD_CLASS,
            STD_CMD_LED_STATE,
            seq![varstore, led_id, clamped(state, 0x00, 0x01)],
        ),
{
    RazerReport::new(
        transaction_id,
        STD_CLASS,
        STD_CMD_LED_STATE,
        &args_std_led_state(varstore, led_id, state),
    )
}

fn args_std_led_rgb(varstore: u8, led_id: u8, rgb: Rgb) -> (a: [u8; 5])
    ensures
        a@ == seq![varstore, led_id, rgb[0], rgb[1], rgb[2]],
{
    let a = [varstore, led_id, rgb[0], rgb[1], rgb[2]];
    assert(a@ =~= seq![varstore, led_id, rgb[0], rgb[1], rgb[2]]);
    a
}

/// Build a classic single-LED static-colour request.
pub fn build_std_led_rgb(transaction_id: u8, varstore: u8, led_id: u8, rgb: Rgb) -> (r:
    RazerReport)
    ensures
        r.is_request(
            transaction_id,
            STD_CLASS,
            STD_CMD_LED_RGB,
            seq![varstore, led_id, rgb[0], rgb[1], rgb[2]],
        ),
{
    RazerReport::new(
        transaction_id,
        STD_CLASS,
        STD_CMD_LED_RGB,
        &args_std_led_rgb(varstore, led_id, rgb),
    )
}

fn args_std_led_effect(varstore: u8, led_id: u8, effect: u8) -> (a: [u8; 3])
    ensures
        a@ == seq![varstore, led_id, clamped(effect, 0x00, 0x05)],
{
    let a = [varstore, led_id, clamp(effect, 0x00, 0x05)];
    assert(a@ =~= seq![varstore, led_id, clamped(effect, 0x00, 0x05)]);
    a
}

/// Build a classic single-LED effect request. `effect` is clamped to
/// `0x00..=0x05`.
pub fn build_std_led_effect(transaction_id: u8, varstore: u8, led_id: u8, effect: u8) -> (r:
    RazerReport)
    ensures
        r.is_request(
            transaction_id,
            STD_CLASS,
            STD_CMD_LED_EFFECT,
            seq![varstore, led_id, clamped(effect, 0x00, 0x05)],
        ),
{
    RazerReport::new(
        transaction_id,
        STD_CLASS,
        STD_CMD_LED_EFFECT,
        &args_std_led_effect(varstore, led_id, effect),
    )
}

fn args_std_led_brightness(varstore: u8, led_id: u8, brightness: u8) -> (a: [u8; 3])
    ensures
        a@ == seq![varstore, led_id, brightness],
{
    let a = [varstore, led_id, brightness];
    assert(a@ =~= seq![varstore, led_id, brightness]);
    a
}

/// Build a classic single-LED brightness request.
pub fn build_std_led_brightness(transaction_id: u8, varstore: u8, led_id: u8, brightness: u8) -> (r:
    RazerReport)
    ensures
        r.is_request(
            transaction_id,
            STD_CLASS,
            STD_CMD_LED_BRIGHTNESS,
            seq![varstore, led_id, brightness],
        ),
{
    RazerReport::new(
        transaction_id,
        STD_CLASS,
        STD_CMD_LED_BRIGHTNESS,
        &args_std_led_brightness(varstore, led_id, brightness),
    )
}

fn args_std_matrix_none() -> (a: [u8; 1])
    ensures
        a@ == seq![std_effect::OFF],
{
    let a = [std_effect::OFF];
    assert(a@ =~= seq![std_effect::OFF]);
    a
}

/// Build a classic whole-matrix "off" request.
pub fn build_std_matrix_effect_none(transaction_id: u8) -> (r: RazerReport)
    ensures
        r.is_request(transaction_id, STD_CLASS, STD_CMD_MATRIX_EFFECT, seq![std_effect::OFF]),
{
    RazerReport::new(transaction_id, STD_CLASS, STD_CMD_MATRIX_EFFECT, &args_std_matrix_none())
}

fn args_std_matrix_wave(direction: u8) -> (a: [u8; 2])
    ensures
        a@ == seq![std_effect::WAVE, clamped(direction, 0x01, 0x02)],
{
    let a = [std_effect::WAVE, clamp(direction, 0x01, 0x02)];
    assert(a@ =~= seq![std_effect::WAVE, clamped(direction, 0x01, 0x02)]);
    a
}

/// Build a classic whole-matrix wave request. `direction` is clamped to
/// `0x01..=0x02`.
pub fn build_std_matrix_effect_wave(transaction_id: u8, direction: u8) -> (r: RazerReport)
    ensures
        r.is_request(
            transaction_id,
            STD_CLASS,
            STD_CMD_MATRIX_EFFECT,
            seq![std_effect::WAVE, clamped(direction, 0x01, 0x02)],
        ),
{
    RazerReport::new(
        transaction_id,
        STD_CLASS,
        STD_CMD_MATRIX_EFFECT,
        &args_std_matrix_wave(direction),
    )
}

fn args_std_matrix_spectrum() -> (a: [u8; 1])
    ensures
        a@ == seq![std_effect::SPECTRUM],
{
    let a = [std_effect::SPECTRUM];
    assert(a@ =~= seq![std_effect::SPECTRUM]);
    a
}

/// Build a classic whole-matrix spectrum-cycling request.
pub fn build_std_matrix_effect_spectrum(transaction_id: u8) -> (r: RazerReport)
    ensures
        r.is_request(
            transaction_id,
            STD_CLASS,
            STD_CMD_MATRIX_EFFECT,
            seq![std_effect::SPECTRUM],
        ),
{
    RazerReport::new(
        transaction_id,
        STD_CLASS,
        STD_CMD_MATRIX_EFFECT,
        &args_std_matrix_spectrum(),
    )
}

fn args_std_matrix_static(rgb: Rgb) -> (a: [u8; 4])
    ensures
        a@ == seq![std_effect::STATIC, rgb[0], rgb[1], rgb[2]],
{
    let a = [std_effect::STATIC, rgb[0], rgb[1], rgb[2]];
    assert(a@ =~= seq![std_effect::STATIC, rgb[0], rgb[1], rgb[2]]);
    a
}

/// Build a classic whole-matrix static-colour request.
pub fn build_std_matrix_effect_static(transaction_id: u8, rgb: Rgb) -> (r: RazerReport)
    ensures
        r.is_request(
            transaction_id,
            STD_CLASS,
            STD_CMD_MATRIX_EFFECT,
            seq![std_effect::STATIC, rgb[0], rgb[1], rgb[2]],
        ),
{
    RazerReport::new(
        transaction_id,
        STD_CLASS,
        STD_CMD_MATRIX_EFFECT,
        &args_std_matrix_static(rgb),
    )
}

fn args_std_matrix_reactive(speed: u8, rgb: Rgb) -> (a: [u8; 5])
    ensures
        a@ == seq![std_effect::REACTIVE, clamped(speed, 0x01, 0x04), rgb[0], rgb[1], rgb[2]],
{
    let a = [std_effect::REACTIVE, clamp(speed, 0x01, 0x04), rgb[0], rgb[1], rgb[2]];
    assert(a@ =~= seq![std_effect::REACTIVE, clamped(speed, 0x01, 0x04), rgb[0], rgb[1], rgb[2]]);
    a
}

/// Build a classic whole-matrix reactive request. `speed` is clamped to
/// `0x01..=0x04`.
pub fn build_std_matrix_effect_reactive(transaction_id: u8, speed: u8, rgb: Rgb) -> (r:
    RazerReport)
    ensures
        r.is_request(
            transaction_id,
            STD_CLASS,
            STD_CMD_MATRIX_EFFECT,
            seq![std_effect::REACTIVE, clamped(speed, 0x01, 0x04), rgb[0], rgb[1], rgb[2]],
        ),
{
    RazerReport::new(
        transaction_id,
        STD_CLASS,
        STD_CMD_MATRIX_EFFECT,
        &args_std_matrix_reactive(speed, rgb),
    )
}

/// Argument bytes of a classic single-colour breathing request: effect,
/// one-colour marker, the colour, three zero bytes.
pub open spec fn std_breathing_single_args(rgb: Rgb) -> Seq<u8> {
    seq![std_effect::BREATHING, 0x01u8, rgb[0], rgb[1], rgb[2], 0u8, 0u8, 0u8]
}

fn args_std_matrix_breathing_single(rgb: Rgb) -> (a: [u8; 8])
    ensures
        a@ == std_breathing_single_args(rgb),
{
    let a = [std_effect::BREATHING, 0x01, rgb[0], rgb[1], rgb[2], 0, 0, 0];
    assert(a@ =~= std_breathing_single_args(rgb));
    a
}

/// Build a classic whole-matrix single-colour breathing request.
pub fn build_std_matrix_effect_breathing_single(transaction_id: u8, rgb: Rgb) -> (r: RazerReport)
    ensures
        r.is_request(
            transaction_id,
            STD_CLASS,
            STD_CMD_MATRIX_EFFECT,
            std_breathing_single_args(rgb),
        ),
{
    RazerReport::new(
        transaction_id,
        STD_CLASS,
        STD_CMD_MATRIX_EFFECT,
        &args_std_matrix_breathing_single(rgb),
    )
}

fn args_std_matrix_custom(varstore: u8) -> (a: [u8; 2])
    ensures
        a@ == seq![std_effect::CUSTOM, varstore],
{
    let a = [std_effect::CUSTOM, varstore];
    assert(a@ =~= seq![std_effect::CUSTOM, varstore]);
    a
}

/// Build a classic whole-matrix "activate custom frame" request.
pub fn build_std_matrix_effect_custom(transaction_id: u8, varstore: u8) -> (r: RazerReport)
    ensures
        r.is_request(
            transaction_id,
            STD_CLASS,
            STD_CMD_MATRIX_EFFECT,
            seq![std_effect::CUSTOM, varstore],
        ),
{
    RazerReport::new(
        transaction_id,
        STD_CLASS,
        STD_CMD_MATRIX_EFFECT,
        &args_std_matrix_custom(varstore),
    )
}

/// Argument block of a classic single-colour starlight request: effect,
/// one-colour marker, speed clamped to `0x01..=0x03`, the colour, zeros.
pub open spec fn std_starlight_single_block(speed: u8, rgb: Rgb) -> Seq<u8> {
    zero_padded(
        seq![std_effect::STARLIGHT, 0x01u8, clamped(speed, 0x01, 0x03), rgb[0], rgb[1], rgb[2]],
    )
}

/// Build a classic whole-matrix single-colour starlight request. `speed` is
/// clamped to `0x01..=0x03`.
///
/// As the device protocol has it, `data_size` is 0x01 although six argument
/// bytes are written: the device reads the whole argument block regardless,
/// so only the `data_size` byte (and so the checksum) differs from what the
/// written-byte count would suggest.
pub fn build_std_matrix_effect_starlight_single(transaction_id: u8, speed: u8, rgb: Rgb) -> (r:
    RazerReport)
    ensures
        r.is_built(
            transaction_id,
            STD_CLASS,
            STD_CMD_MATRIX_EFFECT,
            0x01,
            std_starlight_single_block(speed, rgb),
        ),
{
    let mut arguments = [0u8; 80];
    arguments[0] = std_effect::STARLIGHT;
    arguments[1] = 0x01;
    arguments[2] = clamp(speed, 0x01, 0x03);
    arguments[3] = rgb[0];
    arguments[4] = rgb[1];
    arguments[5] = rgb[2];
    assert(arguments@ =~= std_starlight_single_block(speed, rgb));
    build_raw(transaction_id, STD_CLASS, STD_CMD_MATRIX_EFFECT, 0x01, arguments)
}

/// Argument block of a classic dual-colour starlight request: effect,
/// two-colour marker, speed clamped to `0x01..=0x03`, both colours, zeros.
pub open spec fn std_starlight_dual_block(speed: u8, rgb1: Rgb, rgb2: Rgb) -> Seq<u8> {
    zero_padded(
        seq![
            std_effect::STARLIGHT,
            0x02u8,
            clamped(speed, 0x01, 0x03),
            rgb1[0],
            rgb1[1],
            rgb1[2],
            rgb2[0],
            rgb2[1],
            rgb2[2],
        ],
    )
}

/// Build a classic whole-matrix dual-colour starlight request. `speed` is
/// clamped to `0x01..=0x03`. `data_size` is 0x01, as with the single-colour
/// variant.
pub fn build_std_matrix_effect_starlight_dual(
    transaction_id: u8,
    speed: u8,
    rgb1: Rgb,
    rgb2: Rgb,
) -> (r: RazerReport)
    ensures
        r.is_built(
            transaction_id,
            STD_CLASS,
            STD_CMD_MATRIX_EFFECT,
            0x01,
            std_starlight_dual_block(speed, rgb1, rgb2),
        ),
{
    let mut arguments = [0u8; 80];
    arguments[0] = std_effect::STARLIGHT;
    arguments[1] = 0x02;
    arguments[2] = clamp(speed, 0x01, 0x03);
    arguments[3] = rgb1[0];
    arguments[4] = rgb1[1];
    arguments[5] = rgb1[2];
    arguments[6] = rgb2[0];
    arguments[7] = rgb2[1];
    arguments[8] = rgb2[2];
    assert(arguments@ =~= std_starlight_dual_block(speed, rgb1, rgb2));
    build_raw(transaction_id, STD_CLASS, STD_CMD_MATRIX_EFFECT, 0x01, arguments)
}

/// A report with an explicit `data_size` independent of the populated
/// argument bytes, for the commands whose `data_size` does not match the
/// number of meaningful argument bytes.
fn build_raw(
    transaction_id: u8,
    command_class: u8,
    command_id: u8,
    data_size: u8,
    arguments: [u8; MAX_ARGS],
) -> (r: RazerReport)
    ensures
        r.is_built(transaction_id, command_class, command_id, data_size, arguments@),
{
    let mut report = RazerReport {
        status: crate::report::status::NEW_COMMAND,
        transaction_id,
        remaining_packets: [0u8, 0u8],
        protocol_type: 0x00,
        data_size,
        command_class,
        command_id,
        arguments,
        crc: 0,
        reserved: 0,
    };
    assert(report.remaining_packets@ =~= seq![0u8, 0u8]);
    report.crc = report.compute_crc();
    report
}

/// Argument bytes of a classic custom-frame row upload: frame id 0xFF, row
/// index, start and stop column, then the RGB data.
pub open spec fn std_frame_row_args(row_index: u8, start_col: u8, stop_col: u8, rgb: Seq<u8>) -> Seq<
    u8,
> {
    seq![0xFFu8, row_index, start_col, stop_col] + rgb
}

/// Build a classic whole-matrix custom-frame row-upload request. `rgb` must
/// hold exactly `(stop_col + 1 - start_col) * 3` bytes; `data_size` is a
/// fixed 0x46 whatever the row length.
pub fn build_std_matrix_custom_frame_row(
    transaction_id: u8,
    row_index: u8,
    start_col: u8,
    stop_col: u8,
    rgb: &[u8],
) -> (r: Result<RazerReport, LightingError>)
    ensures
        r is Err <==> frame_row_check(start_col, stop_col, rgb@.len(), 4) is Err,
        r matches Err(e) ==> frame_row_check(start_col, stop_col, rgb@.len(), 4) == Err::<
            (),
            LightingError,
        >(e),
        r matches Ok(rep) ==> rep.is_built(
            transaction_id,
            STD_CLASS,
            STD_CMD_MATRIX_CUSTOM_FRAME_ROW,
            0x46,
            zero_padded(std_frame_row_args(row_index, start_col, stop_col, rgb@)),
        ),
{
    match check_frame_row(start_col, stop_col, rgb.len(), 4) {
        Err(e) => {
            return Err(e);
        },
        Ok(()) => {},
    }
    let mut arguments = [0u8; 80];
    arguments[0] = 0xFF;
    arguments[1] = row_index;
    arguments[2] = start_col;
    arguments[3] = stop_col;
    let n = rgb.len();
    let mut i: usize = 0;
    while i < n
        invariant
            n == rgb@.len(),
            n + 4 <= MAX_ARGS,
            i <= n,
            arguments@.len() == MAX_ARGS,
            arguments@[0] == 0xFFu8,
            arguments@[1] == row_index,
            arguments@[2] == start_col,
            arguments@[3] == stop_col,
            forall|k: int| 0 <= k < i ==> arguments@[4 + k] == rgb@[k],
            forall|k: int| 4 + i <= k < MAX_ARGS ==> arguments@[k] == 0u8,
        decreases n - i,
    {
        arguments[4 + i] = rgb[i];
        i = i + 1;
    }
    assert(arguments@ =~= zero_padded(std_frame_row_args(row_index, start_col, stop_col, rgb@)));
    Ok(build_raw(transaction_id, STD_CLASS, STD_CMD_MATRIX_CUSTOM_FRAME_ROW, 0x46, arguments))
}

} // verus!
