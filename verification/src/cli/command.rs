//! The command line's commands: which command a command name and its
//! values ask for, or why they are refused.
use vstd::prelude::*;

use crate::cli::args::{
    brightness_args, dec_value, hex_id_value, dpi_args, led_value, parse_brightness_args, parse_dpi, parse_led,
    parse_rgb, parse_u16, parse_u8, rgb_args, texts, to_vec_u16, BrightnessArgsError, DpiArgError,
    RgbArgError,
};
use crate::number::IntErrorKind;
use crate::registry::{effect_named, Effect};
use crate::text::str_eq;

verus! {

broadcast use vstd::array::group_array_axioms;

/// A `profile` subcommand. The profile name of `apply`, `show` and `delete`
/// is the first value after the subcommand; `save` takes all of them.
#[derive(Debug, Clone, Copy, PartialEq, Eq, Structural)]
pub enum ProfileCommand {
    /// List the subcommands.
    Help,
    Save,
    Apply,
    List,
    Show,
    Delete,
}

/// A command of the command line.
#[derive(Debug, Clone, PartialEq, Eq)]
pub enum Command {
    /// Enumerate attached devices.
    List,
    /// Show device details.
    Info,
    /// Read the battery.
    Battery,
    /// Read the DPI.
    GetDpi,
    /// Set the DPI.
    SetDpi { x: u16, y: u16 },
    /// Read the DPI stages.
    GetDpiStages,
    /// Set DPI stages, one per value, the stage at place `active` active.
    SetDpiStages { active: u8, values: Vec<u16> },
    /// Set a static color on one LED.
    Color { rgb: [u8; 3], led: u8 },
    /// Set an effect on one LED, or on all LEDs when `led` is absent.
    Effect { effect: Effect, rgb: [u8; 3], led: Option<u8> },
    /// Read an LED's brightness.
    GetBrightness { led: u8 },
    /// Set an LED's brightness.
    SetBrightness { value: u8, led: u8 },
    /// Read the polling rate.
    GetPolling,
    /// Set the polling rate.
    SetPolling { hz: u16 },
    /// A profile subcommand.
    Profile(ProfileCommand),
}

/// A command as plain values.
pub enum CommandView {
    List,
    Info,
    Battery,
    GetDpi,
    SetDpi { x: u16, y: u16 },
    GetDpiStages,
    SetDpiStages { active: u8, values: Seq<u16> },
    Color { rgb: Seq<u8>, led: u8 },
    Effect { effect: Effect, rgb: Seq<u8>, led: Option<u8> },
    GetBrightness { led: u8 },
    SetBrightness { value: u8, led: u8 },
    GetPolling,
    SetPolling { hz: u16 },
    Profile(ProfileCommand),
}

impl View for Command {
    type V = CommandView;

    open spec fn view(&self) -> CommandView {
        match *self {
            Command::List => CommandView::List,
            Command::Info => CommandView::Info,
            Command::Battery => CommandView::Battery,
            Command::GetDpi => CommandView::GetDpi,
            Command::SetDpi { x, y } => CommandView::SetDpi { x, y },
            Command::GetDpiStages => CommandView::GetDpiStages,
            Command::SetDpiStages { active, values } => CommandView::SetDpiStages {
                active,
                values: values@,
            },
            Command::Color { rgb, led } => CommandView::Color { rgb: rgb@, led },
            Command::Effect { effect, rgb, led } => CommandView::Effect { effect, rgb: rgb@, led },
            Command::GetBrightness { led } => CommandView::GetBrightness { led },
            Command::SetBrightness { value, led } => CommandView::SetBrightness { value, led },
            Command::GetPolling => CommandView::GetPolling,
            Command::SetPolling { hz } => CommandView::SetPolling { hz },
            Command::Profile(p) => CommandView::Profile(p),
        }
    }
}

/// Why a command line was refused.
#[derive(Debug, Clone, Copy, PartialEq, Eq, Structural)]
pub enum CommandError {
    /// The DPI values are refused.
    Dpi(DpiArgError),
    /// The active stage of `dpi-stages` is not a number in `0..=255`.
    ActiveIndex(IntErrorKind),
    /// The value at this place is not a `u16`.
    StageValue { index: usize },
    /// The RGB values are refused.
    Rgb(RgbArgError),
    /// The LED id at this place is not a hex byte.
    Led { index: usize, kind: IntErrorKind },
    /// `effect` without an effect name.
    MissingEffect,
    /// An effect name that is not one of the effects.
    UnknownEffect,
    /// The brightness arguments are refused.
    Brightness(BrightnessArgsError),
    /// The polling rate is not a `u16`.
    PollingRate(IntErrorKind),
    /// `profile apply`, `show` or `delete` without a name.
    MissingProfileName(ProfileCommand),
    /// A `profile` subcommand that does not exist.
    UnknownProfileSubcommand,
    /// A command that does not exist.
    UnknownCommand,
}

/// The color an effect takes when none is given: green.
pub open spec fn default_effect_color() -> Seq<u8> {
    seq![0u8, 255u8, 0u8]
}

/// Place of the first bad `u16` value from `i` on.
pub open spec fn first_bad_u16(vals: Seq<Seq<char>>, i: int) -> Option<int>
    decreases vals.len() - i,
{
    if i < 0 || i >= vals.len() {
        None
    } else if dec_value(vals[i], 0xFFFF) is Err {
        Some(i)
    } else {
        first_bad_u16(vals, i + 1)
    }
}

/// The `u16` values of `vals` (each taken as 0 where it is not one).
pub open spec fn u16_values(vals: Seq<Seq<char>>) -> Seq<u16> {
    vals.map_values(
        |v: Seq<char>|
            match dec_value(v, 0xFFFF) {
                Ok(n) => n as u16,
                Err(_) => 0u16,
            },
    )
}

/// Place of the first `--led` in `vals` from `i` on.
pub open spec fn led_flag_from(vals: Seq<Seq<char>>, i: int) -> Option<int>
    decreases vals.len() - i,
{
    if i < 0 || i >= vals.len() {
        None
    } else if vals[i] == "--led"@ {
        Some(i)
    } else {
        led_flag_from(vals, i + 1)
    }
}

/// The value after place `p`, if there is one.
pub open spec fn value_after(vals: Seq<Seq<char>>, p: int) -> Option<Seq<char>> {
    if p + 1 < vals.len() {
        Some(vals[p + 1])
    } else {
        None
    }
}

/// `dpi [<x> [y]]`.
pub open spec fn dpi_command(vals: Seq<Seq<char>>) -> Result<CommandView, CommandError> {
    if vals.len() == 0 {
        Ok(CommandView::GetDpi)
    } else {
        match dpi_args(vals) {
            Ok((x, y)) => Ok(CommandView::SetDpi { x, y }),
            Err(e) => Err(CommandError::Dpi(e)),
        }
    }
}

/// `dpi-stages [<active> <v1> ...]`.
pub open spec fn dpi_stages_command(vals: Seq<Seq<char>>) -> Result<CommandView, CommandError> {
    if vals.len() == 0 {
        Ok(CommandView::GetDpiStages)
    } else {
        match dec_value(vals[0], 0xFF) {
            Err(e) => Err(CommandError::ActiveIndex(e)),
            Ok(a) => match first_bad_u16(vals, 1) {
                Some(i) => Err(CommandError::StageValue { index: i as usize }),
                None => Ok(
                    CommandView::SetDpiStages {
                        active: a as u8,
                        values: u16_values(vals.subrange(1, vals.len() as int)),
                    },
                ),
            },
        }
    }
}

/// `color <r> <g> <b> [led]`.
pub open spec fn color_command(vals: Seq<Seq<char>>) -> Result<CommandView, CommandError> {
    match rgb_args(vals) {
        Err(e) => Err(CommandError::Rgb(e)),
        Ok(rgb) => match led_value(
            if vals.len() > 3 {
                Some(vals[3])
            } else {
                None
            },
        ) {
            Err(e) => Err(CommandError::Led { index: 3, kind: e }),
            Ok(led) => Ok(CommandView::Color { rgb, led: led as u8 }),
        },
    }
}

/// `effect <effect> [<r> <g> <b>] [--led <id>]`: the color applies when at
/// least three values follow the name; without `--led` the effect goes to
/// every LED.
pub open spec fn effect_command(vals: Seq<Seq<char>>) -> Result<CommandView, CommandError> {
    if vals.len() == 0 {
        Err(CommandError::MissingEffect)
    } else {
        match effect_named(vals[0]) {
            None => Err(CommandError::UnknownEffect),
            Some(effect) => {
                let rgb = if vals.len() >= 4 {
                    rgb_args(vals.subrange(1, 4))
                } else {
                    Ok(default_effect_color())
                };
                match rgb {
                    Err(e) => Err(CommandError::Rgb(e)),
                    Ok(rgb) => match led_flag_from(vals, 0) {
                        None => Ok(CommandView::Effect { effect, rgb, led: None }),
                        Some(p) => match led_value(value_after(vals, p)) {
                            Err(e) => Err(CommandError::Led { index: (p + 1) as usize, kind: e }),
                            Ok(led) => Ok(CommandView::Effect { effect, rgb, led: Some(led as u8) }),
                        },
                    },
                }
            },
        }
    }
}

/// `brightness [<0-255>] [--led <id>]`.
pub open spec fn brightness_command(vals: Seq<Seq<char>>) -> Result<CommandView, CommandError> {
    match brightness_args(vals) {
        Err(e) => Err(CommandError::Brightness(e)),
        Ok((Some(value), led)) => Ok(CommandView::SetBrightness { value, led }),
        Ok((None, led)) => Ok(CommandView::GetBrightness { led }),
    }
}

/// `polling [<hz>]`.
pub open spec fn polling_command(vals: Seq<Seq<char>>) -> Result<CommandView, CommandError> {
    if vals.len() == 0 {
        Ok(CommandView::GetPolling)
    } else {
        match dec_value(vals[0], 0xFFFF) {
            Err(e) => Err(CommandError::PollingRate(e)),
            Ok(hz) => Ok(CommandView::SetPolling { hz: hz as u16 }),
        }
    }
}

/// `profile <subcommand> ...`, read from all the values after `profile`.
pub open spec fn profile_command(rest: Seq<Seq<char>>) -> Result<CommandView, CommandError> {
    if rest.len() == 0 {
        Ok(CommandView::Profile(ProfileCommand::Help))
    } else {
        let sub = rest[0];
        let named = rest.len() > 1;
        if sub == "save"@ {
            Ok(CommandView::Profile(ProfileCommand::Save))
        } else if sub == "list"@ {
            Ok(CommandView::Profile(ProfileCommand::List))
        } else if sub == ""@ || sub == "help"@ {
            Ok(CommandView::Profile(ProfileCommand::Help))
        } else {
            let p = if sub == "apply"@ {
                Some(ProfileCommand::Apply)
            } else if sub == "show"@ {
                Some(ProfileCommand::Show)
            } else if sub == "delete"@ {
                Some(ProfileCommand::Delete)
            } else {
                None
            };
            match p {
                None => Err(CommandError::UnknownProfileSubcommand),
                Some(p) => if named {
                    Ok(CommandView::Profile(p))
                } else {
                    Err(CommandError::MissingProfileName(p))
                },
            }
        }
    }
}

/// The command that name `cmd` asks for, with values `vals` (the arguments
/// after the name without `--pid`) or, for `profile`, `rest` (all the
/// arguments after the name).
pub open spec fn command_spec(cmd: Seq<char>, vals: Seq<Seq<char>>, rest: Seq<Seq<char>>) -> Result<
    CommandView,
    CommandError,
> {
    if cmd == "list"@ {
        Ok(CommandView::List)
    } else if cmd == "info"@ {
        Ok(CommandView::Info)
    } else if cmd == "battery"@ {
        Ok(CommandView::Battery)
    } else if cmd == "dpi"@ {
        dpi_command(vals)
    } else if cmd == "dpi-stages"@ {
        dpi_stages_command(vals)
    } else if cmd == "color"@ {
        color_command(vals)
    } else if cmd == "effect"@ {
        effect_command(vals)
    } else if cmd == "brightness"@ {
        brightness_command(vals)
    } else if cmd == "polling"@ {
        polling_command(vals)
    } else if cmd == "profile"@ {
        profile_command(rest)
    } else {
        Err(CommandError::UnknownCommand)
    }
}

/// The result as plain values.
pub open spec fn command_result_view(r: Result<Command, CommandError>) -> Result<
    CommandView,
    CommandError,
> {
    match r {
        Ok(c) => Ok(c@),
        Err(e) => Err(e),
    }
}

/// A decimal channel value that parses is at most 255.
proof fn lemma_channel_bounded(v: Seq<char>)
    ensures
        dec_value(v, 0xFF) matches Ok(n) ==> 0 <= n <= 0xFF,
{
    crate::number::lemma_number_value_bounded(vstd::utf8::encode_utf8(v), 10, 0xFF);
}

/// The color that `color` and `effect` take is read channel by channel in
/// red, green, blue order, each channel the decimal value of its argument:
/// `color <r> <g> <b> [led]` from the first three values, the LED from the
/// fourth as a hex id (the logo LED 0x04 without one); `effect <name> <r>
/// <g> <b>` from the three values after the name, green (0, 255, 0) when
/// fewer follow.
pub proof fn lemma_color_channels(vals: Seq<Seq<char>>, rest: Seq<Seq<char>>)
    ensures
        command_spec("effect"@, vals, rest) matches Ok(CommandView::Effect { rgb, .. }) ==> rgb.len()
            == 3 && (vals.len() >= 4 ==> forall|k: int|
            0 <= k < 3 ==> dec_value(#[trigger] vals[k + 1], 0xFF) == Ok::<int, IntErrorKind>(
                rgb[k] as int,
            )) && (vals.len() < 4 ==> rgb == seq![0u8, 255u8, 0u8]),
        command_spec("color"@, vals, rest) matches Ok(CommandView::Color { rgb, led }) ==> rgb.len()
            == 3 && (forall|k: int|
            0 <= k < 3 ==> dec_value(#[trigger] vals[k], 0xFF) == Ok::<int, IntErrorKind>(
                rgb[k] as int,
            )) && (vals.len() > 3 ==> hex_id_value(vals[3], 0xFF) == Ok::<int, IntErrorKind>(
            led as int,
        )) && (vals.len() <= 3 ==> led == 0x04),
{
    reveal_strlit("list");
    reveal_strlit("info");
    reveal_strlit("battery");
    reveal_strlit("dpi");
    reveal_strlit("dpi-stages");
    reveal_strlit("color");
    reveal_strlit("effect");
    if vals.len() >= 3 {
        lemma_channel_bounded(vals[0]);
        lemma_channel_bounded(vals[1]);
        lemma_channel_bounded(vals[2]);
    }
    if vals.len() >= 4 {
        lemma_channel_bounded(vals[3]);
        crate::number::lemma_number_value_bounded(
            crate::cli::args::trim_hex_prefix_ci(vstd::utf8::encode_utf8(vals[3])),
            16,
            0xFF,
        );
        let sub = vals.subrange(1, 4);
        assert(sub[0] == vals[1] && sub[1] == vals[2] && sub[2] == vals[3]);
    }
}

proof fn lemma_led_flag_from(vals: Seq<Seq<char>>, i: int)
    requires
        0 <= i,
    ensures
        led_flag_from(vals, i) is None ==> forall|q: int| i <= q < vals.len() ==> #[trigger] vals[q] != "--led"@,
        led_flag_from(vals, i) matches Some(p) ==> i <= p < vals.len() && vals[p] == "--led"@ && forall|q: int|
            i <= q < p ==> #[trigger] vals[q] != "--led"@,
    decreases vals.len() - i,
{
    if i < vals.len() && vals[i] != "--led"@ {
        lemma_led_flag_from(vals, i + 1);
    }
}

proof fn lemma_u16_bounded(v: Seq<char>)
    ensures
        dec_value(v, 0xFFFF) matches Ok(n) ==> 0 <= n <= 0xFFFF,
{
    crate::number::lemma_number_value_bounded(vstd::utf8::encode_utf8(v), 10, 0xFFFF);
}

/// The command names as characters.
proof fn lemma_command_names()
    ensures
        "list"@ == seq!['l', 'i', 's', 't'],
        "info"@ == seq!['i', 'n', 'f', 'o'],
        "battery"@ == seq!['b', 'a', 't', 't', 'e', 'r', 'y'],
        "dpi"@ == seq!['d', 'p', 'i'],
        "dpi-stages"@ == seq!['d', 'p', 'i', '-', 's', 't', 'a', 'g', 'e', 's'],
        "color"@ == seq!['c', 'o', 'l', 'o', 'r'],
        "effect"@ == seq!['e', 'f', 'f', 'e', 'c', 't'],
        "brightness"@ == seq!['b', 'r', 'i', 'g', 'h', 't', 'n', 'e', 's', 's'],
        "polling"@ == seq!['p', 'o', 'l', 'l', 'i', 'n', 'g'],
{
    reveal_strlit("list");
    reveal_strlit("info");
    reveal_strlit("battery");
    reveal_strlit("dpi");
    reveal_strlit("dpi-stages");
    reveal_strlit("color");
    reveal_strlit("effect");
    reveal_strlit("brightness");
    reveal_strlit("polling");
}

/// `dpi` alone reads the DPI; `dpi <x> [y]` sets X to the decimal value of
/// the first value and Y to that of the second, or to X without one.
pub proof fn lemma_dpi_command_values(vals: Seq<Seq<char>>, rest: Seq<Seq<char>>)
    ensures
        vals.len() == 0 ==> command_spec("dpi"@, vals, rest) == Ok::<CommandView, CommandError>(
            CommandView::GetDpi,
        ),
        command_spec("dpi"@, vals, rest) matches Ok(CommandView::SetDpi { x, y }) ==> vals.len() > 0
            && dec_value(vals[0], 0xFFFF) == Ok::<int, IntErrorKind>(x as int) && (vals.len() == 1
            ==> y == x) && (vals.len() > 1 ==> dec_value(vals[1], 0xFFFF) == Ok::<int, IntErrorKind>(
            y as int,
        )),
{
    lemma_command_names();
    assert("dpi"@ != "list"@ && "dpi"@ != "info"@ && "dpi"@ != "battery"@);
    if vals.len() > 0 {
        lemma_u16_bounded(vals[0]);
    }
    if vals.len() > 1 {
        lemma_u16_bounded(vals[1]);
    }
}

/// `dpi-stages <active> <v1> ...` makes the active stage the decimal value
/// of its first value and has one stage value per further value, in order.
pub proof fn lemma_dpi_stages_values(vals: Seq<Seq<char>>, rest: Seq<Seq<char>>)
    ensures
        command_spec("dpi-stages"@, vals, rest) matches Ok(CommandView::SetDpiStages { active, values })
            ==> vals.len() > 0 && dec_value(vals[0], 0xFF) == Ok::<int, IntErrorKind>(active as int)
            && values.len() == vals.len() - 1 && forall|k: int|
            0 <= k < values.len() ==> dec_value(#[trigger] vals[k + 1], 0xFFFF) == Ok::<
                int,
                IntErrorKind,
            >(values[k] as int),
{
    lemma_command_names();
    assert("dpi-stages"@.len() == 10);
    assert("dpi-stages"@ != "list"@ && "dpi-stages"@ != "info"@ && "dpi-stages"@ != "battery"@
        && "dpi-stages"@ != "dpi"@);
    if vals.len() > 0 {
        lemma_channel_bounded(vals[0]);
        lemma_first_bad_u16(vals, 1);
        if first_bad_u16(vals, 1) is None {
            let sub = vals.subrange(1, vals.len() as int);
            assert forall|k: int| 0 <= k < sub.len() implies dec_value(#[trigger] vals[k + 1], 0xFFFF)
                == Ok::<int, IntErrorKind>(u16_values(sub)[k] as int) by {
                assert(sub[k] == vals[k + 1]);
                lemma_u16_bounded(vals[k + 1]);
            }
        }
    }
}

/// `polling <hz>` sets the rate to the decimal value of its value.
pub proof fn lemma_polling_command_value(vals: Seq<Seq<char>>, rest: Seq<Seq<char>>)
    ensures
        command_spec("polling"@, vals, rest) matches Ok(CommandView::SetPolling { hz }) ==> vals.len()
            > 0 && dec_value(vals[0], 0xFFFF) == Ok::<int, IntErrorKind>(hz as int),
{
    lemma_command_names();
    if vals.len() > 0 {
        lemma_u16_bounded(vals[0]);
    }
}

/// `effect` goes to every LED without `--led`; with one, to the LED whose
/// hex id follows the first `--led` (the logo LED 0x04 when nothing
/// follows it).
pub proof fn lemma_effect_command_led(vals: Seq<Seq<char>>, rest: Seq<Seq<char>>)
    ensures
        command_spec("effect"@, vals, rest) matches Ok(CommandView::Effect { led, .. }) ==> (led is None
            <==> forall|q: int| 0 <= q < vals.len() ==> #[trigger] vals[q] != "--led"@) && (led matches Some(
            l,
        ) ==> exists|p: int|
            0 <= p < vals.len() && #[trigger] vals[p] == "--led"@ && (forall|q: int|
                0 <= q < p ==> #[trigger] vals[q] != "--led"@) && (p + 1 < vals.len()
                ==> hex_id_value(vals[p + 1], 0xFF) == Ok::<int, IntErrorKind>(l as int)) && (p + 1
                >= vals.len() ==> l == 0x04)),
{
    lemma_command_names();
    assert("effect"@ != "list"@ && "effect"@ != "info"@ && "effect"@ != "battery"@ && "effect"@
        != "dpi"@ && "effect"@ != "dpi-stages"@ && "effect"@ != "color"@);
    lemma_led_flag_from(vals, 0);
    if let Some(p) = led_flag_from(vals, 0) {
        if p + 1 < vals.len() {
            crate::number::lemma_number_value_bounded(
                crate::cli::args::trim_hex_prefix_ci(vstd::utf8::encode_utf8(vals[p + 1])),
                16,
                0xFF,
            );
        }
    }
}

proof fn lemma_first_bad_u16(vals: Seq<Seq<char>>, i: int)
    requires
        0 <= i,
    ensures
        first_bad_u16(vals, i) matches Some(k) ==> i <= k < vals.len() && dec_value(vals[k], 0xFFFF) is Err
            && forall|m: int| i <= m < k ==> dec_value(#[trigger] vals[m], 0xFFFF) is Ok,
        first_bad_u16(vals, i) is None ==> forall|m: int|
            i <= m < vals.len() ==> dec_value(#[trigger] vals[m], 0xFFFF) is Ok,
    decreases vals.len() - i,
{
    if 0 <= i < vals.len() && dec_value(vals[i], 0xFFFF) is Ok {
        lemma_first_bad_u16(vals, i + 1);
    }
}

fn dpi_stages_of(vals: &Vec<String>) -> (r: Result<Command, CommandError>)
    ensures
        command_result_view(r) == dpi_stages_command(texts(vals@)),
{
    let ghost t = texts(vals@);
    if vals.len() == 0 {
        return Ok(Command::GetDpiStages);
    }
    let active = match parse_u8(vals[0].as_str()) {
        Ok(a) => a,
        Err(e) => {
            return Err(CommandError::ActiveIndex(e));
        },
    };
    proof {
        lemma_first_bad_u16(t, 1);
    }
    match to_vec_u16(vals, 1) {
        Ok(values) => {
            proof {
                match first_bad_u16(t, 1) {
                    Some(k) => {
                        assert(dec_value(vals@[1 + (k - 1)]@, 0xFFFF) is Ok);
                    },
                    None => {},
                }
                let want = u16_values(t.subrange(1, t.len() as int));
                assert forall|k: int| 0 <= k < values@.len() implies values@[k] == want[k] by {
                    assert(t.subrange(1, t.len() as int)[k] == vals@[1 + k]@);
                }
                assert(values@ =~= want);
            }
            Ok(Command::SetDpiStages { active, values })
        },
        Err(i) => {
            proof {
                assert(t[i as int] == vals@[i as int]@);
                match first_bad_u16(t, 1) {
                    Some(k) => {
                        if k < i {
                            assert(dec_value(vals@[k]@, 0xFFFF) is Ok);
                        } else if k > i {
                            assert(dec_value(t[i as int], 0xFFFF) is Ok);
                        }
                    },
                    None => {
                        assert(dec_value(t[i as int], 0xFFFF) is Ok);
                    },
                }
            }
            Err(CommandError::StageValue { index: i })
        },
    }
}

fn color_of(vals: &Vec<String>) -> (r: Result<Command, CommandError>)
    ensures
        command_result_view(r) == color_command(texts(vals@)),
{
    let rgb = match parse_rgb(vals.as_slice()) {
        Ok(c) => c,
        Err(e) => {
            return Err(CommandError::Rgb(e));
        },
    };
    let raw = if vals.len() > 3 {
        Some(&vals[3])
    } else {
        None
    };
    match parse_led(raw) {
        Ok(led) => Ok(Command::Color { rgb, led }),
        Err(e) => Err(CommandError::Led { index: 3, kind: e }),
    }
}

fn led_flag_position(vals: &Vec<String>) -> (r: Option<usize>)
    ensures
        r matches Some(p) ==> led_flag_from(texts(vals@), 0) == Some(p as int) && p < vals@.len(),
        r is None ==> led_flag_from(texts(vals@), 0) is None,
{
    let ghost t = texts(vals@);
    let mut i: usize = 0;
    while i < vals.len()
        invariant
            t == texts(vals@),
            i <= vals@.len(),
            led_flag_from(t, 0) == led_flag_from(t, i as int),
        decreases vals@.len() - i,
    {
        if str_eq(vals[i].as_str(), "--led") {
            return Some(i);
        }
        i = i + 1;
    }
    None
}

fn effect_of(vals: &Vec<String>) -> (r: Result<Command, CommandError>)
    ensures
        command_result_view(r) == effect_command(texts(vals@)),
{
    let ghost t = texts(vals@);
    if vals.len() == 0 {
        return Err(CommandError::MissingEffect);
    }
    let effect = match Effect::parse(vals[0].as_str()) {
        Some(e) => e,
        None => {
            return Err(CommandError::UnknownEffect);
        },
    };
    let rgb: [u8; 3] = if vals.len() >= 4 {
        let three = vec![vals[1].clone(), vals[2].clone(), vals[3].clone()];
        assert(texts(three@) =~= t.subrange(1, 4));
        match parse_rgb(three.as_slice()) {
            Ok(c) => c,
            Err(e) => {
                return Err(CommandError::Rgb(e));
            },
        }
    } else {
        let c = [0u8, 255u8, 0u8];
        assert(c@ =~= default_effect_color());
        c
    };
    match led_flag_position(vals) {
        None => Ok(Command::Effect { effect, rgb, led: None }),
        Some(p) => {
            let raw = if p + 1 < vals.len() {
                Some(&vals[p + 1])
            } else {
                None
            };
            match parse_led(raw) {
                Ok(led) => Ok(Command::Effect { effect, rgb, led: Some(led) }),
                Err(e) => Err(CommandError::Led { index: p + 1, kind: e }),
            }
        },
    }
}

fn profile_of(rest: &[String]) -> (r: Result<Command, CommandError>)
    ensures
        command_result_view(r) == profile_command(texts(rest@)),
{
    if rest.len() == 0 {
        return Ok(Command::Profile(ProfileCommand::Help));
    }
    let sub = rest[0].as_str();
    let named = rest.len() > 1;
    if str_eq(sub, "save") {
        Ok(Command::Profile(ProfileCommand::Save))
    } else if str_eq(sub, "list") {
        Ok(Command::Profile(ProfileCommand::List))
    } else if str_eq(sub, "") || str_eq(sub, "help") {
        Ok(Command::Profile(ProfileCommand::Help))
    } else {
        let p = if str_eq(sub, "apply") {
            ProfileCommand::Apply
        } else if str_eq(sub, "show") {
            ProfileCommand::Show
        } else if str_eq(sub, "delete") {
            ProfileCommand::Delete
        } else {
            return Err(CommandError::UnknownProfileSubcommand);
        };
        if named {
            Ok(Command::Profile(p))
        } else {
            Err(CommandError::MissingProfileName(p))
        }
    }
}

/// Read a command line: the command name `cmd`, its values `vals` (the
/// arguments after the name with `--pid` taken out) and, for `profile`,
/// `rest` (all the arguments after the name).
pub fn parse_command(cmd: &str, vals: &Vec<String>, rest: &[String]) -> (r: Result<
    Command,
    CommandError,
>)
    ensures
        command_result_view(r) == command_spec(cmd@, texts(vals@), texts(rest@)),
{
    if str_eq(cmd, "list") {
        Ok(Command::List)
    } else if str_eq(cmd, "info") {
        Ok(Command::Info)
    } else if str_eq(cmd, "battery") {
        Ok(Command::Battery)
    } else if str_eq(cmd, "dpi") {
        if vals.len() == 0 {
            Ok(Command::GetDpi)
        } else {
            match parse_dpi(vals) {
                Ok((x, y)) => Ok(Command::SetDpi { x, y }),
                Err(e) => Err(CommandError::Dpi(e)),
            }
        }
    } else if str_eq(cmd, "dpi-stages") {
        dpi_stages_of(vals)
    } else if str_eq(cmd, "color") {
        color_of(vals)
    } else if str_eq(cmd, "effect") {
        effect_of(vals)
    } else if str_eq(cmd, "brightness") {
        match parse_brightness_args(vals) {
            Err(e) => Err(CommandError::Brightness(e)),
            Ok((Some(value), led)) => Ok(Command::SetBrightness { value, led }),
            Ok((None, led)) => Ok(Command::GetBrightness { led }),
        }
    } else if str_eq(cmd, "polling") {
        if vals.len() == 0 {
            Ok(Command::GetPolling)
        } else {
            match parse_u16(vals[0].as_str()) {
                Ok(hz) => Ok(Command::SetPolling { hz }),
                Err(e) => Err(CommandError::PollingRate(e)),
            }
        }
    } else if str_eq(cmd, "profile") {
        profile_of(rest)
    } else {
        Err(CommandError::UnknownCommand)
    }
}

} // verus!
