//! Command-line argument parsing: numbers, hex ids, LED ids, DPI pairs, RGB
//! triplets, the brightness command's arguments and the `--pid` flag.
use vstd::prelude::*;
use vstd::string::StringSliceAdditionalSpecFns;
use vstd::utf8::encode_utf8;

use crate::commands::lighting::{led_id, Rgb};
use crate::number::{number_value, parse_number_from, IntErrorKind};
use crate::text::str_eq;

verus! {

/// The decimal number that text `s` spells, at most `max`.
pub open spec fn dec_value(s: Seq<char>, max: int) -> Result<int, IntErrorKind> {
    number_value(encode_utf8(s), 10, max)
}

/// `s` with every leading `0x` removed, the `x` in either case.
pub open spec fn trim_hex_prefix_ci(s: Seq<u8>) -> Seq<u8>
    decreases s.len(),
{
    if s.len() >= 2 && s[0] == 0x30 && (s[1] == 0x78 || s[1] == 0x58) {
        trim_hex_prefix_ci(s.subrange(2, s.len() as int))
    } else {
        s
    }
}

/// The hex id that text `s` spells, at most `max`: `0x005c`, `005C` and
/// `5c` all spell 0x5C.
pub open spec fn hex_id_value(s: Seq<char>, max: int) -> Result<int, IntErrorKind> {
    number_value(trim_hex_prefix_ci(encode_utf8(s)), 16, max)
}

/// Index in `s` at which the hex digits start: past every leading `0x` or
/// `0X`. (The text is compared as if lowercased: no character other than
/// `X` lowercases to `x`, and none lowercases to `0`.)
fn strip_hex_prefix(s: &[u8]) -> (start: usize)
    ensures
        start <= s@.len(),
        s@.subrange(start as int, s@.len() as int) == trim_hex_prefix_ci(s@),
{
    let n = s.len();
    let mut i: usize = 0;
    assert(s@.subrange(0, n as int) =~= s@);
    while n - i >= 2 && s[i] == 0x30 && (s[i + 1] == 0x78 || s[i + 1] == 0x58)
        invariant
            n == s@.len(),
            i <= n,
            trim_hex_prefix_ci(s@.subrange(i as int, n as int)) == trim_hex_prefix_ci(s@),
        decreases n - i,
    {
        assert(s@.subrange(i as int, n as int).subrange(2, n - i) =~= s@.subrange(
            i + 2,
            n as int,
        ));
        i = i + 2;
    }
    i
}

/// Parse a hex id such as a PID (`0x005c`, `005C` or `5c`).
pub fn parse_hex_to_u16(raw: &str) -> (r: Result<u16, IntErrorKind>)
    ensures
        r matches Ok(v) ==> hex_id_value(raw@, 0xFFFF) == Ok::<int, IntErrorKind>(v as int),
        r matches Err(e) ==> hex_id_value(raw@, 0xFFFF) == Err::<int, IntErrorKind>(e),
{
    let bytes = raw.as_bytes();
    let start = strip_hex_prefix(bytes);
    match parse_number_from(bytes, start, 16, 0xFFFF) {
        Ok(v) => {
            proof {
                crate::number::lemma_number_value_bounded(
                    bytes@.subrange(start as int, bytes@.len() as int),
                    16,
                    0xFFFF,
                );
            }
            Ok(v as u16)
        },
        Err(e) => Err(e),
    }
}

/// Parse a hex id byte such as an LED id (`0x04`, `04` or `4`).
pub fn parse_hex_to_u8(raw: &str) -> (r: Result<u8, IntErrorKind>)
    ensures
        r matches Ok(v) ==> hex_id_value(raw@, 0xFF) == Ok::<int, IntErrorKind>(v as int),
        r matches Err(e) ==> hex_id_value(raw@, 0xFF) == Err::<int, IntErrorKind>(e),
{
    let bytes = raw.as_bytes();
    let start = strip_hex_prefix(bytes);
    match parse_number_from(bytes, start, 16, 0xFF) {
        Ok(v) => {
            proof {
                crate::number::lemma_number_value_bounded(
                    bytes@.subrange(start as int, bytes@.len() as int),
                    16,
                    0xFF,
                );
            }
            Ok(v as u8)
        },
        Err(e) => Err(e),
    }
}

/// Parse a decimal `u16`.
pub fn parse_u16(raw: &str) -> (r: Result<u16, IntErrorKind>)
    ensures
        r matches Ok(v) ==> dec_value(raw@, 0xFFFF) == Ok::<int, IntErrorKind>(v as int),
        r matches Err(e) ==> dec_value(raw@, 0xFFFF) == Err::<int, IntErrorKind>(e),
{
    let bytes = raw.as_bytes();
    assert(bytes@.subrange(0, bytes@.len() as int) =~= bytes@);
    match parse_number_from(bytes, 0, 10, 0xFFFF) {
        Ok(v) => {
            proof {
                crate::number::lemma_number_value_bounded(bytes@, 10, 0xFFFF);
            }
            Ok(v as u16)
        },
        Err(e) => Err(e),
    }
}

/// Parse a decimal `u8`.
pub fn parse_u8(raw: &str) -> (r: Result<u8, IntErrorKind>)
    ensures
        r matches Ok(v) ==> dec_value(raw@, 0xFF) == Ok::<int, IntErrorKind>(v as int),
        r matches Err(e) ==> dec_value(raw@, 0xFF) == Err::<int, IntErrorKind>(e),
{
    let bytes = raw.as_bytes();
    assert(bytes@.subrange(0, bytes@.len() as int) =~= bytes@);
    match parse_number_from(bytes, 0, 10, 0xFF) {
        Ok(v) => {
            proof {
                crate::number::lemma_number_value_bounded(bytes@, 10, 0xFF);
            }
            Ok(v as u8)
        },
        Err(e) => Err(e),
    }
}

/// The LED id that an optional LED argument selects: the logo LED when the
/// argument is absent.
pub open spec fn led_value(raw: Option<Seq<char>>) -> Result<int, IntErrorKind> {
    match raw {
        Some(s) => hex_id_value(s, 0xFF),
        None => Ok(led_id::LOGO as int),
    }
}

/// Parse an optional LED argument, defaulting to the logo LED.
pub fn parse_led(raw: Option<&String>) -> (r: Result<u8, IntErrorKind>)
    ensures
        r matches Ok(v) ==> led_value(
            match raw {
                Some(s) => Some(s@),
                None => None,
            },
        ) == Ok::<int, IntErrorKind>(v as int),
        r matches Err(e) ==> led_value(
            match raw {
                Some(s) => Some(s@),
                None => None,
            },
        ) == Err::<int, IntErrorKind>(e),
{
    match raw {
        Some(r) => parse_hex_to_u8(r.as_str()),
        None => Ok(led_id::LOGO),
    }
}

/// The percentage (rounded down) that brightness `b` (0..=255) stands for.
pub open spec fn brightness_percent_of(b: u8) -> int {
    b * 100 / 255
}

/// Brightness `b` (0..=255) as a percentage, rounded down.
pub fn brightness_percent(b: u8) -> (p: usize)
    ensures
        p == brightness_percent_of(b),
        p <= 100,
{
    b as usize * 100 / 255
}

/// Parse `vals[from..]` as decimal `u16` values; on failure, the index of
/// the first value that does not parse.
pub fn to_vec_u16(vals: &Vec<String>, from: usize) -> (r: Result<Vec<u16>, usize>)
    requires
        from <= vals@.len(),
    ensures
        r matches Ok(v) ==> v@.len() == vals@.len() - from && forall|k: int|
            0 <= k < v@.len() ==> dec_value(vals@[from + k]@, 0xFFFF) == Ok::<int, IntErrorKind>(
                v@[k] as int,
            ),
        r matches Err(i) ==> from <= i < vals@.len() && dec_value(vals@[i as int]@, 0xFFFF) is Err
            && forall|k: int| from <= k < i ==> dec_value(vals@[k]@, 0xFFFF) is Ok,
        r is Err <==> exists|k: int| from <= k < vals@.len() && dec_value(vals@[k]@, 0xFFFF) is Err,
{
    let mut output: Vec<u16> = Vec::with_capacity(vals.len() - from);
    let mut i = from;
    while i < vals.len()
        invariant
            from <= i <= vals@.len(),
            output@.len() == i - from,
            forall|k: int|
                0 <= k < output@.len() ==> dec_value(vals@[from + k]@, 0xFFFF) == Ok::<
                    int,
                    IntErrorKind,
                >(output@[k] as int),
        decreases vals@.len() - i,
    {
        match parse_u16(vals[i].as_str()) {
            Ok(val) => {
                output.push(val);
            },
            Err(_) => {
                proof {
                    assert forall|k: int| from <= k < i implies dec_value(vals@[k]@, 0xFFFF) is Ok by {
                        assert(dec_value(vals@[from + (k - from)]@, 0xFFFF) == Ok::<int, IntErrorKind>(
                            output@[k - from] as int,
                        ));
                    }
                }
                return Err(i);
            },
        }
        i = i + 1;
    }
    proof {
        assert forall|k: int| from <= k < vals@.len() implies dec_value(vals@[k]@, 0xFFFF) is Ok by {
            assert(dec_value(vals@[from + (k - from)]@, 0xFFFF) == Ok::<int, IntErrorKind>(
                            output@[k - from] as int,
                        ));
        }
    }
    Ok(output)
}

/// The texts of a list of arguments.
pub open spec fn texts(args: Seq<String>) -> Seq<Seq<char>> {
    args.map_values(|a: String| a@)
}

/// Why the brightness command's arguments were refused.
#[derive(Debug, Clone, Copy, PartialEq, Eq, Structural)]
pub enum BrightnessArgsError {
    /// A value other than `--led` is not a number in `0..=255`.
    InvalidBrightness,
    /// The LED id after `--led` is not a hex byte.
    InvalidLed,
}

/// Scan the brightness command's arguments from `i`: `--led` takes the next
/// argument (if any) as the LED id, every other argument must be a
/// brightness value; the last of each wins.
pub open spec fn brightness_scan(
    args: Seq<Seq<char>>,
    i: int,
    brightness: Option<u8>,
    led: Option<Seq<char>>,
) -> Result<(Option<u8>, Option<Seq<char>>), BrightnessArgsError>
    decreases args.len() - i,
{
    if i < 0 || i >= args.len() {
        Ok((brightness, led))
    } else if args[i] == "--led"@ {
        if i + 1 < args.len() {
            brightness_scan(args, i + 2, brightness, Some(args[i + 1]))
        } else {
            Ok((brightness, None))
        }
    } else {
        match dec_value(args[i], 0xFF) {
            Ok(v) => brightness_scan(args, i + 1, Some(v as u8), led),
            Err(_) => Err(BrightnessArgsError::InvalidBrightness),
        }
    }
}

/// What the brightness command's arguments ask for: an optional brightness
/// to set (reading it back when absent) and the LED id (the logo LED when
/// `--led` is absent).
pub open spec fn brightness_args(args: Seq<Seq<char>>) -> Result<
    (Option<u8>, u8),
    BrightnessArgsError,
> {
    match brightness_scan(args, 0, None, None) {
        Err(e) => Err(e),
        Ok((b, led)) => match led_value(led) {
            Ok(v) => Ok((b, v as u8)),
            Err(_) => Err(BrightnessArgsError::InvalidLed),
        },
    }
}

/// Scanning values that hold no `--led`, then more: the values either fail
/// or leave the brightness of the last of them, and the rest is scanned on
/// from there.
proof fn lemma_brightness_scan_values(
    ts: Seq<Seq<char>>,
    tail: Seq<Seq<char>>,
    i: int,
    b: Option<u8>,
    l: Option<Seq<char>>,
)
    requires
        0 <= i <= ts.len(),
        forall|k: int| 0 <= k < ts.len() ==> ts[k] != "--led"@,
    ensures
        (exists|k: int| i <= k < ts.len() && dec_value(#[trigger] ts[k], 0xFF) is Err) ==> brightness_scan(
            ts + tail,
            i,
            b,
            l,
        ) == Err::<(Option<u8>, Option<Seq<char>>), BrightnessArgsError>(
            BrightnessArgsError::InvalidBrightness,
        ),
        (forall|k: int| i <= k < ts.len() ==> dec_value(#[trigger] ts[k], 0xFF) is Ok) ==> brightness_scan(
            ts + tail,
            i,
            b,
            l,
        ) == brightness_scan(
            ts + tail,
            ts.len() as int,
            if i < ts.len() {
                match dec_value(ts.last(), 0xFF) {
                    Ok(v) => Some(v as u8),
                    Err(_) => b,
                }
            } else {
                b
            },
            l,
        ),
    decreases ts.len() - i,
{
    if i < ts.len() {
        let all = ts + tail;
        assert(all[i] == ts[i]);
        match dec_value(ts[i], 0xFF) {
            Ok(v) => {
                lemma_brightness_scan_values(ts, tail, i + 1, Some(v as u8), l);
                if i + 1 == ts.len() {
                    assert(ts.last() == ts[i]);
                }
            },
            Err(_) => {},
        }
    }
}

/// Without `--led`, every argument is a brightness value in `0..=255`, the
/// last one counting, and the LED is the logo LED (0x04); a `--led <v>`
/// after such values sets the LED to the hex value of `v` and keeps the
/// brightness they give.
pub proof fn lemma_brightness_led(ts: Seq<Seq<char>>, v: Seq<char>)
    requires
        forall|k: int| 0 <= k < ts.len() ==> ts[k] != "--led"@,
    ensures
        (exists|k: int| 0 <= k < ts.len() && dec_value(#[trigger] ts[k], 0xFF) is Err) ==> brightness_args(ts)
            == Err::<(Option<u8>, u8), BrightnessArgsError>(BrightnessArgsError::InvalidBrightness)
            && brightness_args(ts + seq!["--led"@, v]) == Err::<(Option<u8>, u8), BrightnessArgsError>(
            BrightnessArgsError::InvalidBrightness,
        ),
        (forall|k: int| 0 <= k < ts.len() ==> dec_value(#[trigger] ts[k], 0xFF) is Ok) ==> ({
            let b = if ts.len() == 0 {
                None
            } else {
                match dec_value(ts.last(), 0xFF) {
                    Ok(n) => Some(n as u8),
                    Err(_) => None,
                }
            };
            &&& brightness_args(ts) == Ok::<(Option<u8>, u8), BrightnessArgsError>((b, 0x04u8))
            &&& brightness_args(ts + seq!["--led"@, v]) == match hex_id_value(v, 0xFF) {
                Ok(n) => Ok::<(Option<u8>, u8), BrightnessArgsError>((b, n as u8)),
                Err(_) => Err(BrightnessArgsError::InvalidLed),
            }
        }),
{
    let tail = seq!["--led"@, v];
    let empty = Seq::<Seq<char>>::empty();
    assert(ts + empty =~= ts);
    lemma_brightness_scan_values(ts, empty, 0, None, None);
    lemma_brightness_scan_values(ts, tail, 0, None, None);
    let all = ts + tail;
    assert(all[ts.len() as int] == "--led"@);
    assert(all[ts.len() as int + 1] == v);
    if forall|k: int| 0 <= k < ts.len() ==> dec_value(#[trigger] ts[k], 0xFF) is Ok {
        let b = if ts.len() == 0 {
            None
        } else {
            match dec_value(ts.last(), 0xFF) {
                Ok(n) => Some(n as u8),
                Err(_) => None,
            }
        };
        assert(brightness_scan(ts, 0, None, None) == brightness_scan(ts, ts.len() as int, b, None));
        assert(brightness_scan(ts, ts.len() as int, b, None) == Ok::<(Option<u8>, Option<Seq<char>>), BrightnessArgsError>((b, None)));
        assert(brightness_scan(all, 0, None, None) == brightness_scan(all, ts.len() as int, b, None));
        assert(brightness_scan(all, ts.len() as int + 2, b, Some(v)) == Ok::<(Option<u8>, Option<Seq<char>>), BrightnessArgsError>((b, Some(v))));
        assert(brightness_scan(all, ts.len() as int, b, None) == Ok::<(Option<u8>, Option<Seq<char>>), BrightnessArgsError>((b, Some(v))));
    }
}

/// Parse the brightness command's arguments: `[<0-255>] [--led <id>]` in
/// any order.
pub fn parse_brightness_args(args: &Vec<String>) -> (r: Result<(Option<u8>, u8), BrightnessArgsError>)
    ensures
        r == brightness_args(texts(args@)),
{
    let ghost t = texts(args@);
    let mut brightness: Option<u8> = None;
    let mut led_str: Option<&String> = None;
    let mut i: usize = 0;
    while i < args.len()
        invariant
            t == texts(args@),
            t.len() == args@.len(),
            i <= args@.len(),
            brightness_scan(t, 0, None, None) == brightness_scan(
                t,
                i as int,
                brightness,
                match led_str {
                    Some(s) => Some(s@),
                    None => None,
                },
            ),
        decreases args@.len() - i,
    {
        if str_eq(args[i].as_str(), "--led") {
            if i + 1 < args.len() {
                led_str = Some(&args[i + 1]);
                i = i + 2;
            } else {
                led_str = None;
                i = args.len();
            }
        } else {
            match parse_u8(args[i].as_str()) {
                Ok(value) => {
                    brightness = Some(value);
                },
                Err(_) => {
                    return Err(BrightnessArgsError::InvalidBrightness);
                },
            }
            i = i + 1;
        }
    }
    match parse_led(led_str) {
        Ok(led) => Ok((brightness, led)),
        Err(_) => Err(BrightnessArgsError::InvalidLed),
    }
}

/// Why the DPI command's values were refused.
#[derive(Debug, Clone, Copy, PartialEq, Eq, Structural)]
pub enum DpiArgError {
    /// No value was given.
    Missing,
    /// The X value is not a `u16`.
    InvalidX(IntErrorKind),
    /// The Y value is not a `u16`.
    InvalidY(IntErrorKind),
}

/// What the DPI command's values ask for: `<x> [y]`, Y defaulting to X.
pub open spec fn dpi_args(vals: Seq<Seq<char>>) -> Result<(u16, u16), DpiArgError> {
    if vals.len() == 0 {
        Err(DpiArgError::Missing)
    } else {
        match dec_value(vals[0], 0xFFFF) {
            Err(e) => Err(DpiArgError::InvalidX(e)),
            Ok(x) => if vals.len() == 1 {
                Ok((x as u16, x as u16))
            } else {
                match dec_value(vals[1], 0xFFFF) {
                    Err(e) => Err(DpiArgError::InvalidY(e)),
                    Ok(y) => Ok((x as u16, y as u16)),
                }
            },
        }
    }
}

/// Parse the DPI command's values: `<x> [y]`, Y defaulting to X.
pub fn parse_dpi(vals: &Vec<String>) -> (r: Result<(u16, u16), DpiArgError>)
    ensures
        r == dpi_args(texts(vals@)),
{
    if vals.len() == 0 {
        return Err(DpiArgError::Missing);
    }
    let x = match parse_u16(vals[0].as_str()) {
        Ok(x) => x,
        Err(e) => {
            return Err(DpiArgError::InvalidX(e));
        },
    };
    if vals.len() == 1 {
        return Ok((x, x));
    }
    let y = match parse_u16(vals[1].as_str()) {
        Ok(y) => y,
        Err(e) => {
            return Err(DpiArgError::InvalidY(e));
        },
    };
    Ok((x, y))
}

/// Why an RGB triplet was refused.
#[derive(Debug, Clone, Copy, PartialEq, Eq, Structural)]
pub enum RgbArgError {
    /// Fewer than three values were given.
    TooFew,
    /// Channel `channel` (0 = red, 1 = green, 2 = blue) is not a number in
    /// `0..=255`.
    InvalidChannel { channel: u8, kind: IntErrorKind },
}

/// What an RGB triplet's values ask for: the first three values, each a
/// decimal number in `0..=255`.
pub open spec fn rgb_args(vals: Seq<Seq<char>>) -> Result<Seq<u8>, RgbArgError> {
    if vals.len() < 3 {
        Err(RgbArgError::TooFew)
    } else {
        match (dec_value(vals[0], 0xFF), dec_value(vals[1], 0xFF), dec_value(vals[2], 0xFF)) {
            (Err(e), _, _) => Err(RgbArgError::InvalidChannel { channel: 0, kind: e }),
            (Ok(_), Err(e), _) => Err(RgbArgError::InvalidChannel { channel: 1, kind: e }),
            (Ok(_), Ok(_), Err(e)) => Err(RgbArgError::InvalidChannel { channel: 2, kind: e }),
            (Ok(r), Ok(g), Ok(b)) => Ok(seq![r as u8, g as u8, b as u8]),
        }
    }
}

/// Parse an RGB triplet from the first three values.
pub fn parse_rgb(vals: &[String]) -> (r: Result<Rgb, RgbArgError>)
    ensures
        match (r, rgb_args(texts(vals@))) {
            (Ok(c), Ok(s)) => c@ == s,
            (Err(e), Err(f)) => e == f,
            _ => false,
        },
{
    if vals.len() < 3 {
        return Err(RgbArgError::TooFew);
    }
    let r = match parse_u8(vals[0].as_str()) {
        Ok(v) => v,
        Err(e) => {
            return Err(RgbArgError::InvalidChannel { channel: 0, kind: e });
        },
    };
    let g = match parse_u8(vals[1].as_str()) {
        Ok(v) => v,
        Err(e) => {
            return Err(RgbArgError::InvalidChannel { channel: 1, kind: e });
        },
    };
    let b = match parse_u8(vals[2].as_str()) {
        Ok(v) => v,
        Err(e) => {
            return Err(RgbArgError::InvalidChannel { channel: 2, kind: e });
        },
    };
    let rgb = [r, g, b];
    assert(rgb@ =~= seq![r, g, b]);
    Ok(rgb)
}

/// A `--pid` (or `-p`) value that is not a hex id: the index of the value
/// and why it failed.
#[derive(Debug, Clone, Copy, PartialEq, Eq, Structural)]
pub struct PidFlagError {
    pub index: usize,
    pub kind: IntErrorKind,
}

/// Scan arguments from `i` for `--pid <value>` / `-p <value>`: each such
/// pair sets the PID (the last one wins) and is removed; every other
/// argument, a trailing flag without value included, is kept in order.
pub open spec fn pid_scan(args: Seq<Seq<char>>, i: int, pid: Option<u16>, rest: Seq<Seq<char>>) -> Result<
    (Option<u16>, Seq<Seq<char>>),
    PidFlagError,
>
    decreases args.len() - i,
{
    if i < 0 || i >= args.len() {
        Ok((pid, rest))
    } else if (args[i] == "--pid"@ || args[i] == "-p"@) && i + 1 < args.len() {
        match hex_id_value(args[i + 1], 0xFFFF) {
            Ok(v) => pid_scan(args, i + 2, Some(v as u16), rest),
            Err(e) => Err(PidFlagError { index: (i + 1) as usize, kind: e }),
        }
    } else {
        pid_scan(args, i + 1, pid, rest.push(args[i]))
    }
}

/// Extract `--pid <value>` (or `-p <value>`) from the arguments: the PID
/// given, if any, and the other arguments in order.
pub fn split_pid_flag(args: &[String]) -> (r: Result<(Option<u16>, Vec<String>), PidFlagError>)
    ensures
        match (r, pid_scan(texts(args@), 0, None, Seq::empty())) {
            (Ok((p, rest)), Ok((q, t))) => p == q && texts(rest@) == t,
            (Err(e), Err(f)) => e == f,
            _ => false,
        },
{
    let ghost t = texts(args@);
    let mut pid: Option<u16> = None;
    let mut remaining: Vec<String> = Vec::new();
    let mut i: usize = 0;
    assert(texts(remaining@) =~= Seq::<Seq<char>>::empty());
    while i < args.len()
        invariant
            t == texts(args@),
            t.len() == args@.len(),
            i <= args@.len(),
            pid_scan(t, 0, None, Seq::empty()) == pid_scan(t, i as int, pid, texts(remaining@)),
        decreases args@.len() - i,
    {
        let flag = str_eq(args[i].as_str(), "--pid") || str_eq(args[i].as_str(), "-p");
        if flag && i + 1 < args.len() {
            match parse_hex_to_u16(args[i + 1].as_str()) {
                Ok(v) => {
                    pid = Some(v);
                },
                Err(e) => {
                    return Err(PidFlagError { index: i + 1, kind: e });
                },
            }
            i = i + 2;
        } else {
            let kept = args[i].clone();
            proof {
                assert(texts(remaining@.push(kept)) =~= texts(remaining@).push(t[i as int]));
            }
            remaining.push(kept);
            i = i + 1;
        }
    }
    Ok((pid, remaining))
}

/// The `0x` of a hex id is optional: `0x` and then any text spells the same
/// id as the text alone (`0x005c` and `005c` alike).
pub proof fn lemma_hex_prefix_optional(s: Seq<char>, max: int)
    ensures
        hex_id_value(seq!['0', 'x'] + s, max) == hex_id_value(s, max),
{
    let t = seq!['0', 'x'] + s;
    assert(t.drop_first() =~= seq!['x'] + s);
    assert((seq!['x'] + s).drop_first() =~= s);
    assert(('0' as u32) == 0x30u32);
    assert(('x' as u32) == 0x78u32);
    assert((0x30u32 & 0x7Fu32) as u8 == 0x30u8) by (bit_vector);
    assert((0x78u32 & 0x7Fu32) as u8 == 0x78u8) by (bit_vector);
    let e = encode_utf8(s);
    assert(encode_utf8(seq!['x'] + s) == seq![0x78u8] + e);
    assert(encode_utf8(t) == seq![0x30u8] + (seq![0x78u8] + e));
    let b = encode_utf8(t);
    assert(b =~= seq![0x30u8, 0x78u8] + e);
    assert(b.subrange(2, b.len() as int) =~= e);
}

} // verus!
