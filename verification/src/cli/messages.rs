//! The texts with which the command line reports input that it refuses.
use vstd::prelude::*;

use crate::cli::args::{texts, BrightnessArgsError, DpiArgError, PidFlagError, RgbArgError};
use crate::cli::command::{CommandError, ProfileCommand};
use crate::cli::detect::{format_pid_list, pid_list_text, pid_text, push_pid, DetectError};
use crate::cli::profile::{ProfileNameError, SaveFlagError};
use crate::number::IntErrorKind;
use crate::text::{chars_of, push_chars, push_str, str_eq, string_from_chars};

verus! {

/// std's `Debug` text of a string: the string in double quotes, with the
/// characters that std escapes escaped.
pub uninterp spec fn debug_quoted(s: Seq<char>) -> Seq<char>;

/// `s` written by std's `Debug` impl for `str` (`format!("{:?}", s)`).
/// Which characters are escaped, and how, is std's and is stated here only
/// by name: the text is a function of `s` alone.
#[verifier::external_body]
fn quoted(s: &str) -> (r: String)
    ensures
        r@ == debug_quoted(s@),
{
    format!("{:?}", s)
}

/// Append `s` as std's `Debug` impl writes it.
fn push_quoted(out: &mut Vec<char>, s: &str)
    ensures
        final(out)@ == old(out)@ + debug_quoted(s@),
{
    let q = quoted(s);
    let v = chars_of(q.as_str());
    push_chars(out, &v);
}

/// The text of an integer parse error of kind `k`, as std words it.
pub open spec fn int_error_text(k: IntErrorKind) -> Seq<char> {
    match k {
        IntErrorKind::Empty => "cannot parse integer from empty string"@,
        IntErrorKind::InvalidDigit => "invalid digit found in string"@,
        IntErrorKind::PosOverflow => "number too large to fit in target type"@,
    }
}

/// The text of an integer parse error of kind `kind`.
pub fn int_error(kind: IntErrorKind) -> (r: &'static str)
    ensures
        r@ == int_error_text(kind),
{
    match kind {
        IntErrorKind::Empty => "cannot parse integer from empty string",
        IntErrorKind::InvalidDigit => "invalid digit found in string",
        IntErrorKind::PosOverflow => "number too large to fit in target type",
    }
}

/// The argument at `i`, or nothing where there is none.
pub open spec fn arg_at(vals: Seq<Seq<char>>, i: int) -> Seq<char> {
    if 0 <= i < vals.len() {
        vals[i]
    } else {
        Seq::empty()
    }
}

fn arg(vals: &[String], index: usize) -> (r: &str)
    ensures
        r@ == arg_at(texts(vals@), index as int),
{
    if index < vals.len() {
        vals[index].as_str()
    } else {
        proof {
            reveal_strlit("");
        }
        ""
    }
}

/// `invalid hex id "<raw>": <reason>`.
pub open spec fn hex_id_error_text(raw: Seq<char>, k: IntErrorKind) -> Seq<char> {
    "invalid hex id "@ + debug_quoted(raw) + ": "@ + int_error_text(k)
}

fn push_hex_id_error(out: &mut Vec<char>, raw: &str, kind: IntErrorKind)
    ensures
        final(out)@ == old(out)@ + hex_id_error_text(raw@, kind),
{
    push_str(out, "invalid hex id ");
    push_quoted(out, raw);
    push_str(out, ": ");
    push_str(out, int_error(kind));
    assert(final(out)@ =~= old(out)@ + hex_id_error_text(raw@, kind));
}

/// The text of a hex id `raw` that failed to parse with `kind`.
pub fn hex_id_error(raw: &str, kind: IntErrorKind) -> (s: String)
    ensures
        s@ == hex_id_error_text(raw@, kind),
{
    let mut out: Vec<char> = Vec::new();
    push_hex_id_error(&mut out, raw, kind);
    assert(out@ =~= hex_id_error_text(raw@, kind));
    string_from_chars(&out)
}

/// The text of a refused `--pid` value: the value at the error's index.
pub fn pid_flag_error(args: &[String], e: &PidFlagError) -> (s: String)
    ensures
        s@ == hex_id_error_text(arg_at(texts(args@), e.index as int), e.kind),
{
    hex_id_error(arg(args, e.index), e.kind)
}

/// The text of a failed auto-detection.
pub open spec fn detect_error_text(e: DetectError) -> Seq<char> {
    match e {
        DetectError::Unsupported { pid } => "Razer device connected but PID "@ + pid_text(pid)
            + " is not supported."@,
        DetectError::NoDevice =>
            "no Razer device connected. See if any HID-compliant mice are visible in device manager"@,
        DetectError::Multiple { pids } => "multiple Razer devices connected ("@ + pid_list_text(
            pids@,
        ) + "). Use --pid to select one."@,
    }
}

/// The text of a failed auto-detection.
pub fn detect_error(e: &DetectError) -> (s: String)
    ensures
        s@ == detect_error_text(*e),
{
    let mut out: Vec<char> = Vec::new();
    match e {
        DetectError::Unsupported { pid } => {
            push_str(&mut out, "Razer device connected but PID ");
            push_pid(&mut out, *pid);
            push_str(&mut out, " is not supported.");
        },
        DetectError::NoDevice => {
            push_str(
                &mut out,
                "no Razer device connected. See if any HID-compliant mice are visible in device manager",
            );
        },
        DetectError::Multiple { pids } => {
            push_str(&mut out, "multiple Razer devices connected (");
            let list = format_pid_list(pids);
            let v = chars_of(list.as_str());
            push_chars(&mut out, &v);
            push_str(&mut out, "). Use --pid to select one.");
        },
    }
    assert(out@ =~= detect_error_text(*e));
    string_from_chars(&out)
}

/// The text of a refused profile name.
pub open spec fn profile_name_error_text(e: ProfileNameError) -> Seq<char> {
    match e {
        ProfileNameError::Length => "profile name must be 1-64 chars"@,
        ProfileNameError::InvalidCharacters =>
            "profile name contains invalid characters (allowed: alnum, space, -, _)"@,
    }
}

/// The text of a refused profile name.
pub fn profile_name_error(e: ProfileNameError) -> (s: String)
    ensures
        s@ == profile_name_error_text(e),
{
    let mut out: Vec<char> = Vec::new();
    match e {
        ProfileNameError::Length => push_str(&mut out, "profile name must be 1-64 chars"),
        ProfileNameError::InvalidCharacters => push_str(
            &mut out,
            "profile name contains invalid characters (allowed: alnum, space, -, _)",
        ),
    }
    assert(out@ =~= profile_name_error_text(e));
    string_from_chars(&out)
}

/// The text of refused RGB values.
pub open spec fn rgb_error_text(e: RgbArgError) -> Seq<char> {
    match e {
        RgbArgError::TooFew => "rgb requires 3 channels"@,
        RgbArgError::InvalidChannel { channel, kind } => "invalid "@ + (if channel == 0 {
            "r"@
        } else if channel == 1 {
            "g"@
        } else {
            "b"@
        }) + " channel: "@ + int_error_text(kind),
    }
}

fn push_rgb_error(out: &mut Vec<char>, e: RgbArgError)
    ensures
        final(out)@ == old(out)@ + rgb_error_text(e),
{
    match e {
        RgbArgError::TooFew => push_str(out, "rgb requires 3 channels"),
        RgbArgError::InvalidChannel { channel, kind } => {
            push_str(out, "invalid ");
            if channel == 0 {
                push_str(out, "r");
            } else if channel == 1 {
                push_str(out, "g");
            } else {
                push_str(out, "b");
            }
            push_str(out, " channel: ");
            push_str(out, int_error(kind));
        },
    }
    assert(final(out)@ =~= old(out)@ + rgb_error_text(e));
}

/// The name of a `profile` subcommand.
pub open spec fn subcommand_name(p: ProfileCommand) -> Seq<char> {
    match p {
        ProfileCommand::Apply => "apply"@,
        ProfileCommand::Show => "show"@,
        ProfileCommand::Delete => "delete"@,
        ProfileCommand::Save => "save"@,
        ProfileCommand::List => "list"@,
        ProfileCommand::Help => "help"@,
    }
}

fn push_subcommand_name(out: &mut Vec<char>, p: ProfileCommand)
    ensures
        final(out)@ == old(out)@ + subcommand_name(p),
{
    match p {
        ProfileCommand::Apply => push_str(out, "apply"),
        ProfileCommand::Show => push_str(out, "show"),
        ProfileCommand::Delete => push_str(out, "delete"),
        ProfileCommand::Save => push_str(out, "save"),
        ProfileCommand::List => push_str(out, "list"),
        ProfileCommand::Help => push_str(out, "help"),
    }
}

/// The text of a refused command line: `cmd` is the command's name, `vals`
/// its values without `--pid`, `rest` all the arguments after the name.
pub open spec fn command_error_text(
    cmd: Seq<char>,
    vals: Seq<Seq<char>>,
    rest: Seq<Seq<char>>,
    e: CommandError,
) -> Seq<char> {
    match e {
        CommandError::Dpi(DpiArgError::Missing) => "dpi requires <x>"@,
        CommandError::Dpi(DpiArgError::InvalidX(k)) => "invalid x: "@ + int_error_text(k),
        CommandError::Dpi(DpiArgError::InvalidY(k)) => "invalid y: "@ + int_error_text(k),
        CommandError::ActiveIndex(k) => "invalid active index: "@ + int_error_text(k),
        CommandError::StageValue { index } => "invalid u16: "@ + arg_at(vals, index as int),
        CommandError::Rgb(r) => rgb_error_text(r),
        CommandError::Led { index, kind } => hex_id_error_text(arg_at(vals, index as int), kind),
        CommandError::MissingEffect => "effect requires <static|breathing|spectrum|wave|reactive|none>"@,
        CommandError::UnknownEffect => "unknown effect "@ + debug_quoted(arg_at(vals, 0)),
        CommandError::Brightness(BrightnessArgsError::InvalidBrightness) =>
            "invalid brightness value. Usage: --brightness <0-255>"@,
        CommandError::Brightness(BrightnessArgsError::InvalidLed) =>
            "invalid LED value. Usage: --led <id>"@,
        CommandError::PollingRate(k) => "invalid hz: "@ + int_error_text(k),
        CommandError::MissingProfileName(p) => "profile "@ + subcommand_name(p) + " requires <name>"@,
        CommandError::UnknownProfileSubcommand => "unknown profile subcommand "@ + debug_quoted(
            arg_at(rest, 0),
        ),
        CommandError::UnknownCommand => "unknown command "@ + debug_quoted(cmd),
    }
}

/// The text of a refused command line: `cmd` is the command's name, `vals`
/// its values without `--pid`, `rest` all the arguments after the name.
pub fn command_error(cmd: &str, vals: &[String], rest: &[String], e: &CommandError) -> (s: String)
    ensures
        s@ == command_error_text(cmd@, texts(vals@), texts(rest@), *e),
{
    let mut out: Vec<char> = Vec::new();
    match e {
        CommandError::Dpi(DpiArgError::Missing) => push_str(&mut out, "dpi requires <x>"),
        CommandError::Dpi(DpiArgError::InvalidX(k)) => {
            push_str(&mut out, "invalid x: ");
            push_str(&mut out, int_error(*k));
        },
        CommandError::Dpi(DpiArgError::InvalidY(k)) => {
            push_str(&mut out, "invalid y: ");
            push_str(&mut out, int_error(*k));
        },
        CommandError::ActiveIndex(k) => {
            push_str(&mut out, "invalid active index: ");
            push_str(&mut out, int_error(*k));
        },
        CommandError::StageValue { index } => {
            push_str(&mut out, "invalid u16: ");
            push_str(&mut out, arg(vals, *index));
        },
        CommandError::Rgb(r) => push_rgb_error(&mut out, *r),
        CommandError::Led { index, kind } => push_hex_id_error(&mut out, arg(vals, *index), *kind),
        CommandError::MissingEffect => push_str(
            &mut out,
            "effect requires <static|breathing|spectrum|wave|reactive|none>",
        ),
        CommandError::UnknownEffect => {
            push_str(&mut out, "unknown effect ");
            push_quoted(&mut out, arg(vals, 0));
        },
        CommandError::Brightness(BrightnessArgsError::InvalidBrightness) => push_str(
            &mut out,
            "invalid brightness value. Usage: --brightness <0-255>",
        ),
        CommandError::Brightness(BrightnessArgsError::InvalidLed) => push_str(
            &mut out,
            "invalid LED value. Usage: --led <id>",
        ),
        CommandError::PollingRate(k) => {
            push_str(&mut out, "invalid hz: ");
            push_str(&mut out, int_error(*k));
        },
        CommandError::MissingProfileName(p) => {
            push_str(&mut out, "profile ");
            push_subcommand_name(&mut out, *p);
            push_str(&mut out, " requires <name>");
        },
        CommandError::UnknownProfileSubcommand => {
            push_str(&mut out, "unknown profile subcommand ");
            push_quoted(&mut out, arg(rest, 0));
        },
        CommandError::UnknownCommand => {
            push_str(&mut out, "unknown command ");
            push_quoted(&mut out, cmd);
        },
    }
    assert(out@ =~= command_error_text(cmd@, texts(vals@), texts(rest@), *e));
    string_from_chars(&out)
}

/// The usage line of `profile save`.
pub open spec fn save_usage_text() -> Seq<char> {
    "usage: profile save <name> [--pid <pid>] [--dpi x y] [--effect <e>] [--rgb r g b] [--brightness n] [--polling hz]"@
}

/// The usage line of `profile save`.
pub fn save_usage() -> (r: &'static str)
    ensures
        r@ == save_usage_text(),
{
    "usage: profile save <name> [--pid <pid>] [--dpi x y] [--effect <e>] [--rgb r g b] [--brightness n] [--polling hz]"
}

/// The text of a flag of `profile save` that lacks its value(s).
pub open spec fn missing_value_text(flag: Seq<char>) -> Seq<char> {
    if flag == "--pid"@ || flag == "-p"@ {
        "--pid requires a value"@
    } else if flag == "--dpi"@ {
        "--dpi requires <x> <y>"@
    } else if flag == "--polling"@ {
        "--polling requires <hz>"@
    } else if flag == "--led"@ {
        "--led requires <id>"@
    } else if flag == "--effect"@ {
        "--effect requires <static|breathing|spectrum|wave|reactive|none>"@
    } else if flag == "--rgb"@ {
        "--rgb requires <r> <g> <b>"@
    } else if flag == "--brightness"@ {
        "--brightness requires <0-255>"@
    } else if flag == "--speed"@ {
        "--speed requires <1-4>"@
    } else {
        flag + " requires a value"@
    }
}

fn push_missing_value(out: &mut Vec<char>, flag: &str)
    ensures
        final(out)@ == old(out)@ + missing_value_text(flag@),
{
    if str_eq(flag, "--pid") || str_eq(flag, "-p") {
        push_str(out, "--pid requires a value");
    } else if str_eq(flag, "--dpi") {
        push_str(out, "--dpi requires <x> <y>");
    } else if str_eq(flag, "--polling") {
        push_str(out, "--polling requires <hz>");
    } else if str_eq(flag, "--led") {
        push_str(out, "--led requires <id>");
    } else if str_eq(flag, "--effect") {
        push_str(out, "--effect requires <static|breathing|spectrum|wave|reactive|none>");
    } else if str_eq(flag, "--rgb") {
        push_str(out, "--rgb requires <r> <g> <b>");
    } else if str_eq(flag, "--brightness") {
        push_str(out, "--brightness requires <0-255>");
    } else if str_eq(flag, "--speed") {
        push_str(out, "--speed requires <1-4>");
    } else {
        push_str(out, flag);
        push_str(out, " requires a value");
        assert(final(out)@ =~= old(out)@ + missing_value_text(flag@));
    }
}

/// Whether a number after `flag` is a hex id: after `--pid`, `-p` and
/// `--led`.
pub open spec fn takes_hex_id(flag: Seq<char>) -> bool {
    flag == "--pid"@ || flag == "-p"@ || flag == "--led"@
}

/// The text of refused `profile save` arguments.
pub open spec fn save_flag_error_text(args: Seq<Seq<char>>, e: SaveFlagError) -> Seq<char> {
    match e {
        SaveFlagError::MissingName => save_usage_text(),
        SaveFlagError::MissingValue { index } => missing_value_text(arg_at(args, index as int)),
        SaveFlagError::InvalidNumber { index, kind } => if takes_hex_id(
            arg_at(args, index - 1),
        ) {
            hex_id_error_text(arg_at(args, index as int), kind)
        } else {
            int_error_text(kind)
        },
        SaveFlagError::UnknownEffect { index } => "unknown effect "@ + debug_quoted(
            arg_at(args, index as int),
        ),
        SaveFlagError::UnknownFlag { index } => "unknown flag "@ + debug_quoted(
            arg_at(args, index as int),
        ),
    }
}

/// The text of refused `profile save` arguments.
pub fn save_flag_error(args: &[String], e: &SaveFlagError) -> (s: String)
    ensures
        s@ == save_flag_error_text(texts(args@), *e),
{
    let mut out: Vec<char> = Vec::new();
    match e {
        SaveFlagError::MissingName => push_str(&mut out, save_usage()),
        SaveFlagError::MissingValue { index } => push_missing_value(&mut out, arg(args, *index)),
        SaveFlagError::InvalidNumber { index, kind } => {
            let flag: &str = if *index >= 1 {
                arg(args, *index - 1)
            } else {
                proof {
                    reveal_strlit("");
                }
                ""
            };
            assert(flag@ == arg_at(texts(args@), *index - 1));
            if str_eq(flag, "--pid") || str_eq(flag, "-p") || str_eq(flag, "--led") {
                push_hex_id_error(&mut out, arg(args, *index), *kind);
            } else {
                push_str(&mut out, int_error(*kind));
            }
            assert(out@ =~= save_flag_error_text(texts(args@), *e));
        },
        SaveFlagError::UnknownEffect { index } => {
            push_str(&mut out, "unknown effect ");
            push_quoted(&mut out, arg(args, *index));
        },
        SaveFlagError::UnknownFlag { index } => {
            push_str(&mut out, "unknown flag ");
            push_quoted(&mut out, arg(args, *index));
        },
    }
    assert(out@ =~= save_flag_error_text(texts(args@), *e));
    string_from_chars(&out)
}

} // verus!
