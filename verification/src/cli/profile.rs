//! Profiles: the saved-settings model, profile-name validation, the
//! `profile save` flags, dropping settings a device cannot take, and the
//! plan of device commands that applies a profile.
use vstd::prelude::*;

use crate::cli::args::{
    dec_value, hex_id_value, parse_hex_to_u16, parse_hex_to_u8, parse_u16, parse_u8, texts,
};
use crate::number::IntErrorKind;
use crate::registry::{effect_named, Effect};
use crate::text::str_eq;
use vstd::string::StrSliceExecFns;

verus! {

/// Effect speed of a zone when none is given.
pub const DEFAULT_SPEED: u8 = 2;

/// The default effect speed.
pub fn default_speed() -> (s: u8)
    ensures
        s == DEFAULT_SPEED,
{
    DEFAULT_SPEED
}

/// Lighting settings of one LED zone.
#[derive(Debug, Clone, Copy, PartialEq, Eq)]
pub struct ZoneSettings {
    pub led_id: u8,
    pub effect: Effect,
    pub color: [u8; 3],
    pub brightness: u8,
    pub speed: u8,
}

/// Direct X/Y DPI.
#[derive(Debug, Clone, Copy, PartialEq, Eq, Structural)]
pub struct DpiSettings {
    pub x: u16,
    pub y: u16,
}

/// The settings a profile holds; every part is optional.
#[derive(Debug, Clone, PartialEq, Eq)]
pub struct ProfileSettings {
    /// Lighting applied to every LED zone of the device.
    pub global_zone: Option<ZoneSettings>,
    /// Lighting of single zones, by LED id.
    pub lighting_zones: Vec<ZoneSettings>,
    pub dpi: Option<DpiSettings>,
    pub polling_hz: Option<u16>,
}

impl Default for ProfileSettings {
    /// No setting at all.
    fn default() -> (s: Self)
        ensures
            s.global_zone is None,
            s.lighting_zones@ == Seq::<ZoneSettings>::empty(),
            s.dpi is None,
            s.polling_hz is None,
    {
        ProfileSettings { global_zone: None, lighting_zones: Vec::new(), dpi: None, polling_hz: None }
    }
}

/// A named profile.
#[derive(Debug, Clone, PartialEq, Eq)]
pub struct Profile {
    pub name: String,
    pub settings: ProfileSettings,
}

impl Default for Profile {
    /// An unnamed profile with no settings.
    fn default() -> (p: Self)
        ensures
            p.name@ == Seq::<char>::empty(),
            p.settings.global_zone is None,
            p.settings.lighting_zones@ == Seq::<ZoneSettings>::empty(),
            p.settings.dpi is None,
            p.settings.polling_hz is None,
    {
        Profile { name: String::new(), settings: ProfileSettings::default() }
    }
}

/// Unicode `White_Space`, the set that `char::is_whitespace` tests.
pub open spec fn is_whitespace(c: char) -> bool {
    ('\u{9}' <= c <= '\u{d}') || c == ' ' || c == '\u{85}' || c == '\u{a0}' || c == '\u{1680}'
        || ('\u{2000}' <= c <= '\u{200a}') || c == '\u{2028}' || c == '\u{2029}' || c
        == '\u{202f}' || c == '\u{205f}' || c == '\u{3000}'
}

/// `s` without leading whitespace.
pub open spec fn trim_start_ws(s: Seq<char>) -> Seq<char>
    decreases s.len(),
{
    if s.len() > 0 && is_whitespace(s[0]) {
        trim_start_ws(s.drop_first())
    } else {
        s
    }
}

/// `s` without trailing whitespace.
pub open spec fn trim_end_ws(s: Seq<char>) -> Seq<char>
    decreases s.len(),
{
    if s.len() > 0 && is_whitespace(s.last()) {
        trim_end_ws(s.drop_last())
    } else {
        s
    }
}

/// `s` without leading and trailing whitespace.
pub open spec fn trim_ws(s: Seq<char>) -> Seq<char> {
    trim_end_ws(trim_start_ws(s))
}

/// Whether `c` is whitespace.
fn is_ws(c: char) -> (r: bool)
    ensures
        r == is_whitespace(c),
{
    ('\u{9}' <= c && c <= '\u{d}') || c == ' ' || c == '\u{85}' || c == '\u{a0}' || c == '\u{1680}'
        || ('\u{2000}' <= c && c <= '\u{200a}') || c == '\u{2028}' || c == '\u{2029}' || c
        == '\u{202f}' || c == '\u{205f}' || c == '\u{3000}'
}

/// The slice of `s` without leading and trailing whitespace, as `str::trim`
/// gives it.
fn trim_str(s: &str) -> (t: &str)
    ensures
        t@ == trim_ws(s@),
{
    let chars = crate::text::chars_of(s);
    let n = chars.len();
    let mut start: usize = 0;
    assert(s@.subrange(0, n as int) =~= s@);
    while start < n && is_ws(chars[start])
        invariant
            chars@ == s@,
            n == s@.len(),
            start <= n,
            trim_start_ws(s@) == trim_start_ws(s@.subrange(start as int, n as int)),
        decreases n - start,
    {
        assert(s@.subrange(start as int, n as int).drop_first() =~= s@.subrange(
            start + 1,
            n as int,
        ));
        start = start + 1;
    }
    assert(trim_start_ws(s@) == s@.subrange(start as int, n as int)) by {
        if start == n {
            assert(s@.subrange(start as int, n as int) =~= Seq::<char>::empty());
        }
    }
    let mut end: usize = n;
    while end > start && is_ws(chars[end - 1])
        invariant
            chars@ == s@,
            n == s@.len(),
            start <= end <= n,
            trim_ws(s@) == trim_end_ws(s@.subrange(start as int, end as int)),
        decreases end - start,
    {
        assert(s@.subrange(start as int, end as int).drop_last() =~= s@.subrange(
            start as int,
            end - 1,
        ));
        end = end - 1;
    }
    assert(trim_ws(s@) == s@.subrange(start as int, end as int)) by {
        if start == end {
            assert(s@.subrange(start as int, end as int) =~= Seq::<char>::empty());
        }
    }
    s.substring_char(start, end)
}

/// Characters allowed in a profile name given on the command line: ASCII
/// letters and digits, space, `-` and `_`.
pub open spec fn is_name_char(c: char) -> bool {
    ('a' <= c <= 'z') || ('A' <= c <= 'Z') || ('0' <= c <= '9') || c == ' ' || c == '-' || c == '_'
}

/// Characters the interactive prompt accepts for a profile name: as
/// `is_name_char`, less the space (the prompt adds spaces by its own key).
pub open spec fn is_prompt_name_char(c: char) -> bool {
    ('a' <= c <= 'z') || ('A' <= c <= 'Z') || ('0' <= c <= '9') || c == '-' || c == '_'
}

/// Whether the interactive prompt accepts character `c`.
pub fn is_valid_name_char(c: char) -> (r: bool)
    ensures
        r == is_prompt_name_char(c),
{
    ('a' <= c && c <= 'z') || ('A' <= c && c <= 'Z') || ('0' <= c && c <= '9') || c == '-' || c
        == '_'
}

/// Longest profile name, in bytes.
pub const MAX_NAME_BYTES: usize = 64;

/// Whether the name prompt takes character `c` typed after `input`: a space
/// or a name character, while the name is shorter than 64 bytes.
pub fn prompt_accepts(input: &str, c: char) -> (r: bool)
    ensures
        r == ((c == ' ' || is_prompt_name_char(c)) && (vstd::utf8::encode_utf8(input@).len() as usize)
            < MAX_NAME_BYTES),
{
    (c == ' ' || is_valid_name_char(c)) && input.len() < MAX_NAME_BYTES
}

/// Why a profile name was refused.
#[derive(Debug, Clone, Copy, PartialEq, Eq, Structural)]
pub enum ProfileNameError {
    /// The trimmed name is empty or longer than 64 bytes.
    Length,
    /// The trimmed name holds a character other than ASCII letters and
    /// digits, space, `-` and `_`.
    InvalidCharacters,
}

/// What a profile name becomes: trimmed of surrounding whitespace, 1 to 64
/// bytes long, made of ASCII letters and digits, space, `-` and `_`.
pub open spec fn profile_name(name: Seq<char>) -> Result<Seq<char>, ProfileNameError> {
    let t = trim_ws(name);
    let n = vstd::utf8::encode_utf8(t).len() as usize;
    if n == 0 || n > 64 {
        Err(ProfileNameError::Length)
    } else if forall|i: int| 0 <= i < t.len() ==> is_name_char(#[trigger] t[i]) {
        Ok(t)
    } else {
        Err(ProfileNameError::InvalidCharacters)
    }
}

/// Validate a profile name and return it trimmed.
pub fn validate_profile_name(name: &str) -> (r: Result<String, ProfileNameError>)
    ensures
        match (r, profile_name(name@)) {
            (Ok(s), Ok(t)) => s@ == t,
            (Err(e), Err(f)) => e == f,
            _ => false,
        },
{
    let trimmed = trim_str(name);
    let n = trimmed.len();
    if n == 0 || n > 64 {
        return Err(ProfileNameError::Length);
    }
    let chars = crate::text::chars_of(trimmed);
    let mut i: usize = 0;
    while i < chars.len()
        invariant
            chars@ == trimmed@,
            trimmed@ == trim_ws(name@),
            n == vstd::utf8::encode_utf8(trimmed@).len() as usize,
            0 < n <= 64,
            i <= chars@.len(),
            forall|k: int| 0 <= k < i ==> is_name_char(#[trigger] chars@[k]),
        decreases chars@.len() - i,
    {
        let c = chars[i];
        let ok = ('a' <= c && c <= 'z') || ('A' <= c && c <= 'Z') || ('0' <= c && c <= '9') || c
            == ' ' || c == '-' || c == '_';
        if !ok {
            assert(!is_name_char(trimmed@[i as int]));
            assert(trim_ws(name@) == trimmed@);
            assert(!(forall|k: int|
                0 <= k < trimmed@.len() ==> is_name_char(#[trigger] trimmed@[k])));
            return Err(ProfileNameError::InvalidCharacters);
        }
        i = i + 1;
    }
    assert(forall|k: int| 0 <= k < trimmed@.len() ==> is_name_char(#[trigger] trimmed@[k]));
    Ok(trimmed.to_owned())
}

/// The settings of a profile as plain values.
#[verifier::ext_equal]
pub struct ProfileSettingsView {
    pub global_zone: Option<ZoneSettings>,
    pub lighting_zones: Seq<ZoneSettings>,
    pub dpi: Option<DpiSettings>,
    pub polling_hz: Option<u16>,
}

impl View for ProfileSettings {
    type V = ProfileSettingsView;

    open spec fn view(&self) -> ProfileSettingsView {
        ProfileSettingsView {
            global_zone: self.global_zone,
            lighting_zones: self.lighting_zones@,
            dpi: self.dpi,
            polling_hz: self.polling_hz,
        }
    }
}

/// One lighting flag of `profile save`.
#[derive(Debug, Clone, Copy, PartialEq, Eq)]
pub enum ZoneFlag {
    Effect(Effect),
    Rgb([u8; 3]),
    Brightness(u8),
    Speed(u8),
}

/// A zone that a lighting flag creates: static white at full brightness,
/// default speed.
pub open spec fn new_zone(led: u8) -> ZoneSettings {
    ZoneSettings {
        led_id: led,
        effect: Effect::Static,
        color: [255u8, 255u8, 255u8],
        brightness: 255,
        speed: DEFAULT_SPEED,
    }
}

/// `zone` (or a new zone for LED `led`) with one lighting flag applied.
pub open spec fn zone_with(zone: Option<ZoneSettings>, led: u8, flag: ZoneFlag) -> ZoneSettings {
    let base = match zone {
        Some(z) => z,
        None => new_zone(led),
    };
    match flag {
        ZoneFlag::Effect(e) => ZoneSettings { effect: e, ..base },
        ZoneFlag::Rgb(c) => ZoneSettings { color: c, ..base },
        ZoneFlag::Brightness(b) => ZoneSettings { brightness: b, ..base },
        ZoneFlag::Speed(v) => ZoneSettings { speed: v, ..base },
    }
}

/// Index of the first zone of `zones` for LED `led`, if any.
pub open spec fn zone_index(zones: Seq<ZoneSettings>, led: u8) -> Option<int>
    decreases zones.len(),
{
    if zones.len() == 0 {
        None
    } else {
        match zone_index(zones.drop_last(), led) {
            Some(i) => Some(i),
            None => if zones.last().led_id == led {
                Some(zones.len() - 1)
            } else {
                None
            },
        }
    }
}

/// Settings `s` with a lighting flag applied to the selected zone: the
/// zone of LED `led` when one is selected, else the zone for all LEDs.
pub open spec fn settings_with(s: ProfileSettingsView, selected: Option<u8>, flag: ZoneFlag) -> ProfileSettingsView {
    match selected {
        None => ProfileSettingsView {
            global_zone: Some(zone_with(s.global_zone, crate::commands::lighting::led_id::LOGO, flag)),
            ..s
        },
        Some(led) => match zone_index(s.lighting_zones, led) {
            Some(i) => ProfileSettingsView {
                lighting_zones: s.lighting_zones.update(i, zone_with(Some(s.lighting_zones[i]), led, flag)),
                ..s
            },
            None => ProfileSettingsView {
                lighting_zones: s.lighting_zones.push(zone_with(None, led, flag)),
                ..s
            },
        },
    }
}

fn zone_with_flag(zone: Option<ZoneSettings>, led: u8, flag: ZoneFlag) -> (z: ZoneSettings)
    ensures
        z == zone_with(zone, led, flag),
{
    let base = match zone {
        Some(z) => z,
        None => ZoneSettings {
            led_id: led,
            effect: Effect::Static,
            color: [255u8, 255u8, 255u8],
            brightness: 255,
            speed: DEFAULT_SPEED,
        },
    };
    match flag {
        ZoneFlag::Effect(e) => ZoneSettings { effect: e, ..base },
        ZoneFlag::Rgb(c) => ZoneSettings { color: c, ..base },
        ZoneFlag::Brightness(b) => ZoneSettings { brightness: b, ..base },
        ZoneFlag::Speed(v) => ZoneSettings { speed: v, ..base },
    }
}

fn find_zone(zones: &Vec<ZoneSettings>, led: u8) -> (r: Option<usize>)
    ensures
        r matches Some(i) ==> zone_index(zones@, led) == Some(i as int) && i < zones@.len(),
        r is None ==> zone_index(zones@, led) is None,
{
    let mut i: usize = 0;
    while i < zones.len()
        invariant
            i <= zones@.len(),
            zone_index(zones@.take(i as int), led) is None,
        decreases zones@.len() - i,
    {
        assert(zones@.take(i + 1).drop_last() =~= zones@.take(i as int));
        if zones[i].led_id == led {
            proof {
                lemma_zone_index_prefix(zones@, i as int + 1, led);
            }
            return Some(i);
        }
        i = i + 1;
    }
    assert(zones@.take(zones@.len() as int) =~= zones@);
    None
}

proof fn lemma_zone_index_prefix(zones: Seq<ZoneSettings>, k: int, led: u8)
    requires
        0 <= k <= zones.len(),
        zone_index(zones.take(k), led) is Some,
    ensures
        zone_index(zones, led) == zone_index(zones.take(k), led),
    decreases zones.len() - k,
{
    if k < zones.len() {
        assert(zones.take(k + 1).drop_last() =~= zones.take(k));
        lemma_zone_index_prefix(zones, k + 1, led);
    } else {
        assert(zones.take(k) =~= zones);
    }
}

/// Apply a lighting flag to the selected zone of `settings`.
pub fn apply_zone_flag(settings: &mut ProfileSettings, selected: Option<u8>, flag: ZoneFlag)
    ensures
        final(settings)@ == settings_with(old(settings)@, selected, flag),
{
    if let Some(led) = selected {
        match find_zone(&settings.lighting_zones, led) {
            Some(i) => {
                let z = zone_with_flag(Some(settings.lighting_zones[i]), led, flag);
                settings.lighting_zones.set(i, z);
                return;
            },
            None => {
                let z = zone_with_flag(None, led, flag);
                settings.lighting_zones.push(z);
                return;
            },
        }
    }
    let z = zone_with_flag(settings.global_zone, crate::commands::lighting::led_id::LOGO, flag);
    settings.global_zone = Some(z);
    assert(settings@ =~= settings_with(old(settings)@, selected, flag));
}

/// Why the `profile save` arguments were refused. Indices are into the
/// argument list, the profile name at index 0.
#[derive(Debug, Clone, Copy, PartialEq, Eq, Structural)]
pub enum SaveFlagError {
    /// No profile name was given.
    MissingName,
    /// The flag at `index` lacks its value(s).
    MissingValue { index: usize },
    /// The value at `index` is not a number of the flag's kind.
    InvalidNumber { index: usize, kind: IntErrorKind },
    /// The value at `index` names no effect.
    UnknownEffect { index: usize },
    /// The argument at `index` is not a flag of `profile save`.
    UnknownFlag { index: usize },
}

/// What `profile save <name> [flags]` asks for.
#[derive(Debug, Clone, PartialEq, Eq)]
pub struct SaveRequest {
    pub name: String,
    pub pid: Option<u16>,
    pub settings: ProfileSettings,
}

/// The settings and PID that the flags of `profile save` from index `i` on
/// set, starting from `pid` and `s`, with LED zone `sel` selected (`None`:
/// the zone for all LEDs). `--pid`/`-p <pid>`, `--dpi <x> <y>` and
/// `--polling <hz>` set the PID, DPI and polling rate; `--led <id>` selects
/// a zone; `--effect <e>`, `--rgb <r> <g> <b>`, `--brightness <0-255>` and
/// `--speed <n>` set the selected zone.
pub open spec fn save_scan(
    args: Seq<Seq<char>>,
    i: int,
    pid: Option<u16>,
    sel: Option<u8>,
    s: ProfileSettingsView,
) -> Result<(Option<u16>, ProfileSettingsView), SaveFlagError>
    decreases args.len() - i,
{
    if i < 1 || i >= args.len() {
        Ok((pid, s))
    } else {
        let a = args[i];
        let missing = Err(SaveFlagError::MissingValue { index: i as usize });
        if a == "--pid"@ || a == "-p"@ {
            if i + 1 >= args.len() {
                missing
            } else {
                match hex_id_value(args[i + 1], 0xFFFF) {
                    Err(e) => Err(SaveFlagError::InvalidNumber { index: (i + 1) as usize, kind: e }),
                    Ok(v) => save_scan(args, i + 2, Some(v as u16), sel, s),
                }
            }
        } else if a == "--dpi"@ {
            if i + 2 >= args.len() {
                missing
            } else {
                match (dec_value(args[i + 1], 0xFFFF), dec_value(args[i + 2], 0xFFFF)) {
                    (Err(e), _) => Err(SaveFlagError::InvalidNumber { index: (i + 1) as usize, kind: e }),
                    (Ok(_), Err(e)) => Err(SaveFlagError::InvalidNumber { index: (i + 2) as usize, kind: e }),
                    (Ok(x), Ok(y)) => save_scan(
                        args,
                        i + 3,
                        pid,
                        sel,
                        ProfileSettingsView { dpi: Some(DpiSettings { x: x as u16, y: y as u16 }), ..s },
                    ),
                }
            }
        } else if a == "--polling"@ {
            if i + 1 >= args.len() {
                missing
            } else {
                match dec_value(args[i + 1], 0xFFFF) {
                    Err(e) => Err(SaveFlagError::InvalidNumber { index: (i + 1) as usize, kind: e }),
                    Ok(hz) => save_scan(
                        args,
                        i + 2,
                        pid,
                        sel,
                        ProfileSettingsView { polling_hz: Some(hz as u16), ..s },
                    ),
                }
            }
        } else if a == "--led"@ {
            if i + 1 >= args.len() {
                missing
            } else {
                match hex_id_value(args[i + 1], 0xFF) {
                    Err(e) => Err(SaveFlagError::InvalidNumber { index: (i + 1) as usize, kind: e }),
                    Ok(led) => save_scan(args, i + 2, pid, Some(led as u8), s),
                }
            }
        } else if a == "--effect"@ {
            if i + 1 >= args.len() {
                missing
            } else {
                match effect_named(args[i + 1]) {
                    None => Err(SaveFlagError::UnknownEffect { index: (i + 1) as usize }),
                    Some(e) => save_scan(args, i + 2, pid, sel, settings_with(s, sel, ZoneFlag::Effect(e))),
                }
            }
        } else if a == "--rgb"@ {
            if i + 3 >= args.len() {
                missing
            } else {
                match (
                    dec_value(args[i + 1], 0xFF),
                    dec_value(args[i + 2], 0xFF),
                    dec_value(args[i + 3], 0xFF),
                ) {
                    (Err(e), _, _) => Err(SaveFlagError::InvalidNumber { index: (i + 1) as usize, kind: e }),
                    (Ok(_), Err(e), _) => Err(SaveFlagError::InvalidNumber { index: (i + 2) as usize, kind: e }),
                    (Ok(_), Ok(_), Err(e)) => Err(SaveFlagError::InvalidNumber { index: (i + 3) as usize, kind: e }),
                    (Ok(r), Ok(g), Ok(b)) => save_scan(
                        args,
                        i + 4,
                        pid,
                        sel,
                        settings_with(s, sel, ZoneFlag::Rgb([r as u8, g as u8, b as u8])),
                    ),
                }
            }
        } else if a == "--brightness"@ {
            if i + 1 >= args.len() {
                missing
            } else {
                match dec_value(args[i + 1], 0xFF) {
                    Err(e) => Err(SaveFlagError::InvalidNumber { index: (i + 1) as usize, kind: e }),
                    Ok(v) => save_scan(args, i + 2, pid, sel, settings_with(s, sel, ZoneFlag::Brightness(v as u8))),
                }
            }
        } else if a == "--speed"@ {
            if i + 1 >= args.len() {
                missing
            } else {
                match dec_value(args[i + 1], 0xFF) {
                    Err(e) => Err(SaveFlagError::InvalidNumber { index: (i + 1) as usize, kind: e }),
                    Ok(v) => save_scan(args, i + 2, pid, sel, settings_with(s, sel, ZoneFlag::Speed(v as u8))),
                }
            }
        } else {
            Err(SaveFlagError::UnknownFlag { index: i as usize })
        }
    }
}

/// The settings with no setting at all.
pub open spec fn empty_settings() -> ProfileSettingsView {
    ProfileSettingsView {
        global_zone: None,
        lighting_zones: Seq::empty(),
        dpi: None,
        polling_hz: None,
    }
}

/// The state of a `profile save` flag scan: the PID given so far, the
/// selected LED zone and the settings so far.
struct SaveState {
    pid: Option<u16>,
    selected: Option<u8>,
    settings: ProfileSettings,
}

/// `save_scan` from index `i` on, starting from state `st`.
spec fn scan_from(t: Seq<Seq<char>>, i: int, st: SaveState) -> Result<
    (Option<u16>, ProfileSettingsView),
    SaveFlagError,
> {
    save_scan(t, i, st.pid, st.selected, st.settings@)
}

/// What a flag handler promises: on success the scan continues from `j`
/// with the new state to the same result; on failure the scan fails there.
spec fn flag_step(
    t: Seq<Seq<char>>,
    i: int,
    before: SaveState,
    after: SaveState,
    r: Result<usize, SaveFlagError>,
) -> bool {
    match r {
        Ok(j) => i < j <= t.len() && scan_from(t, i, before) == scan_from(t, j as int, after),
        Err(e) => scan_from(t, i, before) == Err::<(Option<u16>, ProfileSettingsView), SaveFlagError>(e),
    }
}

/// The characters of the `profile save` flags.
proof fn lemma_flag_texts()
    ensures
        "--pid"@ == seq!['-', '-', 'p', 'i', 'd'],
        "-p"@ == seq!['-', 'p'],
        "--dpi"@ == seq!['-', '-', 'd', 'p', 'i'],
        "--polling"@ == seq!['-', '-', 'p', 'o', 'l', 'l', 'i', 'n', 'g'],
        "--led"@ == seq!['-', '-', 'l', 'e', 'd'],
        "--effect"@ == seq!['-', '-', 'e', 'f', 'f', 'e', 'c', 't'],
        "--rgb"@ == seq!['-', '-', 'r', 'g', 'b'],
        "--brightness"@ == seq!['-', '-', 'b', 'r', 'i', 'g', 'h', 't', 'n', 'e', 's', 's'],
        "--speed"@ == seq!['-', '-', 's', 'p', 'e', 'e', 'd'],
{
    reveal_strlit("--pid");
    reveal_strlit("-p");
    reveal_strlit("--dpi");
    reveal_strlit("--polling");
    reveal_strlit("--led");
    reveal_strlit("--effect");
    reveal_strlit("--rgb");
    reveal_strlit("--brightness");
    reveal_strlit("--speed");
}

fn flag_pid(args: &[String], i: usize, st: &mut SaveState) -> (r: Result<usize, SaveFlagError>)
    requires
        1 <= i < args@.len(),
        texts(args@)[i as int] == "--pid"@ || texts(args@)[i as int] == "-p"@,
    ensures
        flag_step(texts(args@), i as int, *old(st), *final(st), r),
{
    proof {
        lemma_flag_texts();
    }
    if args.len() - i <= 1 {
        return Err(SaveFlagError::MissingValue { index: i });
    }
    match parse_hex_to_u16(args[i + 1].as_str()) {
        Ok(v) => {
            st.pid = Some(v);
            Ok(i + 2)
        },
        Err(e) => Err(SaveFlagError::InvalidNumber { index: i + 1, kind: e }),
    }
}

fn flag_dpi(args: &[String], i: usize, st: &mut SaveState) -> (r: Result<usize, SaveFlagError>)
    requires
        1 <= i < args@.len(),
        texts(args@)[i as int] == "--dpi"@,
    ensures
        flag_step(texts(args@), i as int, *old(st), *final(st), r),
{
    proof {
        lemma_flag_texts();
    }
    if args.len() - i <= 2 {
        return Err(SaveFlagError::MissingValue { index: i });
    }
    let x = match parse_u16(args[i + 1].as_str()) {
        Ok(v) => v,
        Err(e) => {
            return Err(SaveFlagError::InvalidNumber { index: i + 1, kind: e });
        },
    };
    let y = match parse_u16(args[i + 2].as_str()) {
        Ok(v) => v,
        Err(e) => {
            return Err(SaveFlagError::InvalidNumber { index: i + 2, kind: e });
        },
    };
    st.settings.dpi = Some(DpiSettings { x, y });
    assert(st.settings@ =~= (ProfileSettingsView {
        dpi: Some(DpiSettings { x, y }),
        ..old(st).settings@
    }));
    Ok(i + 3)
}

fn flag_polling(args: &[String], i: usize, st: &mut SaveState) -> (r: Result<usize, SaveFlagError>)
    requires
        1 <= i < args@.len(),
        texts(args@)[i as int] == "--polling"@,
    ensures
        flag_step(texts(args@), i as int, *old(st), *final(st), r),
{
    proof {
        lemma_flag_texts();
    }
    if args.len() - i <= 1 {
        return Err(SaveFlagError::MissingValue { index: i });
    }
    match parse_u16(args[i + 1].as_str()) {
        Ok(hz) => {
            st.settings.polling_hz = Some(hz);
            assert(st.settings@ =~= (ProfileSettingsView {
                polling_hz: Some(hz),
                ..old(st).settings@
            }));
            Ok(i + 2)
        },
        Err(e) => Err(SaveFlagError::InvalidNumber { index: i + 1, kind: e }),
    }
}

fn flag_led(args: &[String], i: usize, st: &mut SaveState) -> (r: Result<usize, SaveFlagError>)
    requires
        1 <= i < args@.len(),
        texts(args@)[i as int] == "--led"@,
    ensures
        flag_step(texts(args@), i as int, *old(st), *final(st), r),
{
    proof {
        lemma_flag_texts();
    }
    if args.len() - i <= 1 {
        return Err(SaveFlagError::MissingValue { index: i });
    }
    match parse_hex_to_u8(args[i + 1].as_str()) {
        Ok(led) => {
            st.selected = Some(led);
            Ok(i + 2)
        },
        Err(e) => Err(SaveFlagError::InvalidNumber { index: i + 1, kind: e }),
    }
}

fn flag_effect(args: &[String], i: usize, st: &mut SaveState) -> (r: Result<usize, SaveFlagError>)
    requires
        1 <= i < args@.len(),
        texts(args@)[i as int] == "--effect"@,
    ensures
        flag_step(texts(args@), i as int, *old(st), *final(st), r),
{
    proof {
        lemma_flag_texts();
    }
    if args.len() - i <= 1 {
        return Err(SaveFlagError::MissingValue { index: i });
    }
    match Effect::parse(args[i + 1].as_str()) {
        Some(e) => {
            apply_zone_flag(&mut st.settings, st.selected, ZoneFlag::Effect(e));
            Ok(i + 2)
        },
        None => Err(SaveFlagError::UnknownEffect { index: i + 1 }),
    }
}

fn flag_rgb(args: &[String], i: usize, st: &mut SaveState) -> (r: Result<usize, SaveFlagError>)
    requires
        1 <= i < args@.len(),
        texts(args@)[i as int] == "--rgb"@,
    ensures
        flag_step(texts(args@), i as int, *old(st), *final(st), r),
{
    proof {
        lemma_flag_texts();
    }
    if args.len() - i <= 3 {
        return Err(SaveFlagError::MissingValue { index: i });
    }
    let r = match parse_u8(args[i + 1].as_str()) {
        Ok(v) => v,
        Err(e) => {
            return Err(SaveFlagError::InvalidNumber { index: i + 1, kind: e });
        },
    };
    let g = match parse_u8(args[i + 2].as_str()) {
        Ok(v) => v,
        Err(e) => {
            return Err(SaveFlagError::InvalidNumber { index: i + 2, kind: e });
        },
    };
    let b = match parse_u8(args[i + 3].as_str()) {
        Ok(v) => v,
        Err(e) => {
            return Err(SaveFlagError::InvalidNumber { index: i + 3, kind: e });
        },
    };
    apply_zone_flag(&mut st.settings, st.selected, ZoneFlag::Rgb([r, g, b]));
    Ok(i + 4)
}

fn flag_brightness(args: &[String], i: usize, st: &mut SaveState) -> (r: Result<
    usize,
    SaveFlagError,
>)
    requires
        1 <= i < args@.len(),
        texts(args@)[i as int] == "--brightness"@,
    ensures
        flag_step(texts(args@), i as int, *old(st), *final(st), r),
{
    proof {
        lemma_flag_texts();
    }
    if args.len() - i <= 1 {
        return Err(SaveFlagError::MissingValue { index: i });
    }
    match parse_u8(args[i + 1].as_str()) {
        Ok(v) => {
            apply_zone_flag(&mut st.settings, st.selected, ZoneFlag::Brightness(v));
            Ok(i + 2)
        },
        Err(e) => Err(SaveFlagError::InvalidNumber { index: i + 1, kind: e }),
    }
}

fn flag_speed(args: &[String], i: usize, st: &mut SaveState) -> (r: Result<usize, SaveFlagError>)
    requires
        1 <= i < args@.len(),
        texts(args@)[i as int] == "--speed"@,
    ensures
        flag_step(texts(args@), i as int, *old(st), *final(st), r),
{
    proof {
        lemma_flag_texts();
    }
    if args.len() - i <= 1 {
        return Err(SaveFlagError::MissingValue { index: i });
    }
    match parse_u8(args[i + 1].as_str()) {
        Ok(v) => {
            apply_zone_flag(&mut st.settings, st.selected, ZoneFlag::Speed(v));
            Ok(i + 2)
        },
        Err(e) => Err(SaveFlagError::InvalidNumber { index: i + 1, kind: e }),
    }
}

/// Handle the flag at index `i`.
fn save_flag(args: &[String], i: usize, st: &mut SaveState) -> (r: Result<usize, SaveFlagError>)
    requires
        1 <= i < args@.len(),
    ensures
        flag_step(texts(args@), i as int, *old(st), *final(st), r),
{
    let ghost t = texts(args@);
    assert(t[i as int] == args@[i as int]@);
    proof {
        lemma_flag_texts();
    }
    let a = args[i].as_str();
    if str_eq(a, "--pid") || str_eq(a, "-p") {
        flag_pid(args, i, st)
    } else if str_eq(a, "--dpi") {
        flag_dpi(args, i, st)
    } else if str_eq(a, "--polling") {
        flag_polling(args, i, st)
    } else if str_eq(a, "--led") {
        flag_led(args, i, st)
    } else if str_eq(a, "--effect") {
        flag_effect(args, i, st)
    } else if str_eq(a, "--rgb") {
        flag_rgb(args, i, st)
    } else if str_eq(a, "--brightness") {
        flag_brightness(args, i, st)
    } else if str_eq(a, "--speed") {
        flag_speed(args, i, st)
    } else {
        Err(SaveFlagError::UnknownFlag { index: i })
    }
}

/// Whether flag `flag` stands at place `i` of `args` with `n` values after it.
pub open spec fn flag_at(args: Seq<Seq<char>>, i: int, flag: Seq<char>, n: int) -> bool {
    1 <= i && i + n < args.len() && args[i] == flag
}

/// Whether the color, brightness and speed of zone `z` are the defaults (white,
/// 255, speed 2) or the values that some `--rgb <r> <g> <b>`,
/// `--brightness <n>` or `--speed <n>` of `args` gives, channels in order.
pub open spec fn zone_set_by_flags(args: Seq<Seq<char>>, z: ZoneSettings) -> bool {
    &&& (z.color == [255u8, 255u8, 255u8] || exists|i: int|
        #[trigger] flag_at(args, i, "--rgb"@, 3) && dec_value(args[i + 1], 0xFF) == Ok::<
            int,
            IntErrorKind,
        >(z.color[0] as int) && dec_value(args[i + 2], 0xFF) == Ok::<int, IntErrorKind>(
            z.color[1] as int,
        ) && dec_value(args[i + 3], 0xFF) == Ok::<int, IntErrorKind>(z.color[2] as int))
    &&& (z.brightness == 255 || exists|i: int|
        #[trigger] flag_at(args, i, "--brightness"@, 1) && dec_value(args[i + 1], 0xFF) == Ok::<
            int,
            IntErrorKind,
        >(z.brightness as int))
    &&& (z.speed == 2 || exists|i: int|
        #[trigger] flag_at(args, i, "--speed"@, 1) && dec_value(args[i + 1], 0xFF) == Ok::<
            int,
            IntErrorKind,
        >(z.speed as int))
}

/// Whether every setting in `pid` and `s` is one that a flag of `args` of
/// its kind gives with that value: the PID the hex value after some
/// `--pid`/`-p`, the DPI the two decimal values after some `--dpi` (X
/// first), the polling rate the value after some `--polling`, and each
/// zone's color, brightness and speed as `zone_set_by_flags` says.
pub open spec fn set_by_flags(args: Seq<Seq<char>>, pid: Option<u16>, s: ProfileSettingsView) -> bool {
    &&& (pid matches Some(p) ==> exists|i: int|
        (#[trigger] flag_at(args, i, "--pid"@, 1) || flag_at(args, i, "-p"@, 1)) && hex_id_value(
            args[i + 1],
            0xFFFF,
        ) == Ok::<int, IntErrorKind>(p as int))
    &&& (s.dpi matches Some(d) ==> exists|i: int|
        #[trigger] flag_at(args, i, "--dpi"@, 2) && dec_value(args[i + 1], 0xFFFF) == Ok::<
            int,
            IntErrorKind,
        >(d.x as int) && dec_value(args[i + 2], 0xFFFF) == Ok::<int, IntErrorKind>(d.y as int))
    &&& (s.polling_hz matches Some(h) ==> exists|i: int|
        #[trigger] flag_at(args, i, "--polling"@, 1) && dec_value(args[i + 1], 0xFFFF) == Ok::<
            int,
            IntErrorKind,
        >(h as int))
    &&& (s.global_zone matches Some(z) ==> zone_set_by_flags(args, z))
    &&& forall|j: int|
        0 <= j < s.lighting_zones.len() ==> zone_set_by_flags(args, #[trigger] s.lighting_zones[j])
}

/// Whether a lighting flag's value is one that a flag of `args` gives.
spec fn zone_flag_given(args: Seq<Seq<char>>, flag: ZoneFlag) -> bool {
    match flag {
        ZoneFlag::Effect(_) => true,
        ZoneFlag::Rgb(c) => exists|i: int|
            #[trigger] flag_at(args, i, "--rgb"@, 3) && dec_value(args[i + 1], 0xFF) == Ok::<
                int,
                IntErrorKind,
            >(c[0] as int) && dec_value(args[i + 2], 0xFF) == Ok::<int, IntErrorKind>(c[1] as int)
                && dec_value(args[i + 3], 0xFF) == Ok::<int, IntErrorKind>(c[2] as int),
        ZoneFlag::Brightness(b) => exists|i: int|
            #[trigger] flag_at(args, i, "--brightness"@, 1) && dec_value(args[i + 1], 0xFF) == Ok::<
                int,
                IntErrorKind,
            >(b as int),
        ZoneFlag::Speed(v) => exists|i: int|
            #[trigger] flag_at(args, i, "--speed"@, 1) && dec_value(args[i + 1], 0xFF) == Ok::<
                int,
                IntErrorKind,
            >(v as int),
    }
}

proof fn lemma_zone_with_set(args: Seq<Seq<char>>, zone: Option<ZoneSettings>, led: u8, flag: ZoneFlag)
    requires
        zone matches Some(z) ==> zone_set_by_flags(args, z),
        zone_flag_given(args, flag),
    ensures
        zone_set_by_flags(args, zone_with(zone, led, flag)),
{
}

proof fn lemma_settings_with_set(
    args: Seq<Seq<char>>,
    pid: Option<u16>,
    s: ProfileSettingsView,
    sel: Option<u8>,
    flag: ZoneFlag,
)
    requires
        set_by_flags(args, pid, s),
        zone_flag_given(args, flag),
    ensures
        set_by_flags(args, pid, settings_with(s, sel, flag)),
{
    match sel {
        None => lemma_zone_with_set(args, s.global_zone, crate::commands::lighting::led_id::LOGO, flag),
        Some(led) => match zone_index(s.lighting_zones, led) {
            Some(i) => {
                lemma_zone_index_found(s.lighting_zones, led);
                lemma_zone_with_set(args, Some(s.lighting_zones[i]), led, flag);
                let zs = s.lighting_zones.update(i, zone_with(Some(s.lighting_zones[i]), led, flag));
                assert forall|j: int| 0 <= j < zs.len() implies zone_set_by_flags(args, #[trigger] zs[j]) by {
                    if j != i {
                        assert(zs[j] == s.lighting_zones[j]);
                    }
                }
            },
            None => {
                lemma_zone_with_set(args, None, led, flag);
                let zs = s.lighting_zones.push(zone_with(None, led, flag));
                assert forall|j: int| 0 <= j < zs.len() implies zone_set_by_flags(args, #[trigger] zs[j]) by {
                    if j < s.lighting_zones.len() {
                        assert(zs[j] == s.lighting_zones[j]);
                    }
                }
            },
        },
    }
}

proof fn lemma_dec_bounded(v: Seq<char>, max: int)
    requires
        max >= 0,
    ensures
        dec_value(v, max) matches Ok(n) ==> 0 <= n <= max,
{
    crate::number::lemma_number_value_bounded(vstd::utf8::encode_utf8(v), 10, max);
}

proof fn lemma_save_scan_set(
    args: Seq<Seq<char>>,
    i: int,
    pid: Option<u16>,
    sel: Option<u8>,
    s: ProfileSettingsView,
)
    requires
        set_by_flags(args, pid, s),
    ensures
        save_scan(args, i, pid, sel, s) matches Ok((p, t)) ==> set_by_flags(args, p, t),
    decreases args.len() - i,
{
    if 1 <= i < args.len() {
        let a = args[i];
        if a == "--pid"@ || a == "-p"@ {
            if i + 1 < args.len() {
                crate::number::lemma_number_value_bounded(
                    crate::cli::args::trim_hex_prefix_ci(vstd::utf8::encode_utf8(args[i + 1])),
                    16,
                    0xFFFF,
                );
                if let Ok(v) = hex_id_value(args[i + 1], 0xFFFF) {
                    assert(flag_at(args, i, "--pid"@, 1) || flag_at(args, i, "-p"@, 1));
                    lemma_save_scan_set(args, i + 2, Some(v as u16), sel, s);
                }
            }
        } else if a == "--dpi"@ {
            if i + 2 < args.len() {
                lemma_dec_bounded(args[i + 1], 0xFFFF);
                lemma_dec_bounded(args[i + 2], 0xFFFF);
                if let (Ok(x), Ok(y)) = (dec_value(args[i + 1], 0xFFFF), dec_value(args[i + 2], 0xFFFF)) {
                    assert(flag_at(args, i, "--dpi"@, 2));
                    let given = DpiSettings { x: x as u16, y: y as u16 };
                    lemma_save_scan_set(args, i + 3, pid, sel, ProfileSettingsView { dpi: Some(given), ..s });
                }
            }
        } else if a == "--polling"@ {
            if i + 1 < args.len() {
                lemma_dec_bounded(args[i + 1], 0xFFFF);
                if let Ok(hz) = dec_value(args[i + 1], 0xFFFF) {
                    assert(flag_at(args, i, "--polling"@, 1));
                    lemma_save_scan_set(args, i + 2, pid, sel, ProfileSettingsView { polling_hz: Some(hz as u16), ..s });
                }
            }
        } else if a == "--led"@ {
            if i + 1 < args.len() {
                if let Ok(led) = hex_id_value(args[i + 1], 0xFF) {
                    lemma_save_scan_set(args, i + 2, pid, Some(led as u8), s);
                }
            }
        } else if a == "--effect"@ {
            if i + 1 < args.len() {
                if let Some(e) = effect_named(args[i + 1]) {
                    lemma_settings_with_set(args, pid, s, sel, ZoneFlag::Effect(e));
                    lemma_save_scan_set(args, i + 2, pid, sel, settings_with(s, sel, ZoneFlag::Effect(e)));
                }
            }
        } else if a == "--rgb"@ {
            if i + 3 < args.len() {
                lemma_dec_bounded(args[i + 1], 0xFF);
                lemma_dec_bounded(args[i + 2], 0xFF);
                lemma_dec_bounded(args[i + 3], 0xFF);
                if let (Ok(r), Ok(g), Ok(b)) = (
                    dec_value(args[i + 1], 0xFF),
                    dec_value(args[i + 2], 0xFF),
                    dec_value(args[i + 3], 0xFF),
                ) {
                    let c = [r as u8, g as u8, b as u8];
                    assert(flag_at(args, i, "--rgb"@, 3));
                    assert(zone_flag_given(args, ZoneFlag::Rgb(c)));
                    lemma_settings_with_set(args, pid, s, sel, ZoneFlag::Rgb(c));
                    lemma_save_scan_set(args, i + 4, pid, sel, settings_with(s, sel, ZoneFlag::Rgb(c)));
                }
            }
        } else if a == "--brightness"@ {
            if i + 1 < args.len() {
                lemma_dec_bounded(args[i + 1], 0xFF);
                if let Ok(v) = dec_value(args[i + 1], 0xFF) {
                    assert(flag_at(args, i, "--brightness"@, 1));
                    assert(zone_flag_given(args, ZoneFlag::Brightness(v as u8)));
                    lemma_settings_with_set(args, pid, s, sel, ZoneFlag::Brightness(v as u8));
                    lemma_save_scan_set(args, i + 2, pid, sel, settings_with(s, sel, ZoneFlag::Brightness(v as u8)));
                }
            }
        } else if a == "--speed"@ {
            if i + 1 < args.len() {
                lemma_dec_bounded(args[i + 1], 0xFF);
                if let Ok(v) = dec_value(args[i + 1], 0xFF) {
                    assert(flag_at(args, i, "--speed"@, 1));
                    assert(zone_flag_given(args, ZoneFlag::Speed(v as u8)));
                    lemma_settings_with_set(args, pid, s, sel, ZoneFlag::Speed(v as u8));
                    lemma_save_scan_set(args, i + 2, pid, sel, settings_with(s, sel, ZoneFlag::Speed(v as u8)));
                }
            }
        }
    }
}

/// Every setting that `profile save` stores comes from a flag of its kind,
/// with that flag's values in order: the DPI's X and Y are the two values
/// after some `--dpi`, the polling rate the value after some `--polling`,
/// the PID the hex value after some `--pid`/`-p`, and each zone's color,
/// brightness and speed are the defaults or the values of some `--rgb`,
/// `--brightness` or `--speed`.
pub proof fn lemma_saved_settings_from_flags(args: Seq<Seq<char>>)
    ensures
        save_scan(args, 1, None, None, empty_settings()) matches Ok((pid, s)) ==> set_by_flags(args, pid, s),
{
    lemma_save_scan_set(args, 1, None, None, empty_settings());
}

/// A single `--dpi <x> <y>` saves exactly that DPI: with no other `--dpi`
/// among the flags, a profile saved from `name --dpi x y` and more flags
/// has DPI X the decimal value of `x` and Y that of `y`.
pub proof fn lemma_saved_dpi(args: Seq<Seq<char>>)
    requires
        args.len() >= 4,
        args[1] == "--dpi"@,
        forall|k: int| 1 < k < args.len() ==> args[k] != "--dpi"@,
    ensures
        save_scan(args, 1, None, None, empty_settings()) matches Ok((_, s)) ==> s.dpi matches Some(d)
            && dec_value(args[2], 0xFFFF) == Ok::<int, IntErrorKind>(d.x as int) && dec_value(
            args[3],
            0xFFFF,
        ) == Ok::<int, IntErrorKind>(d.y as int),
{
    lemma_flag_texts();
    assert("--dpi"@ != "--pid"@ && "--dpi"@ != "-p"@) by {
        assert("--dpi"@[2] != "--pid"@[2]);
    }
    lemma_dec_bounded(args[2], 0xFFFF);
    lemma_dec_bounded(args[3], 0xFFFF);
    if let (Ok(x), Ok(y)) = (dec_value(args[2], 0xFFFF), dec_value(args[3], 0xFFFF)) {
        lemma_save_scan_dpi_kept(
            args,
            4,
            None,
            None,
            ProfileSettingsView { dpi: Some(DpiSettings { x: x as u16, y: y as u16 }), ..empty_settings() },
        );
    }
}

/// Flags other than `--dpi` keep the DPI.
proof fn lemma_save_scan_dpi_kept(
    args: Seq<Seq<char>>,
    i: int,
    pid: Option<u16>,
    sel: Option<u8>,
    s: ProfileSettingsView,
)
    requires
        i >= 1,
        forall|k: int| i <= k < args.len() ==> args[k] != "--dpi"@,
    ensures
        save_scan(args, i, pid, sel, s) matches Ok((_, t)) ==> t.dpi == s.dpi,
    decreases args.len() - i,
{
    if i < args.len() {
        let a = args[i];
        if a == "--pid"@ || a == "-p"@ {
            if i + 1 < args.len() {
                if let Ok(v) = hex_id_value(args[i + 1], 0xFFFF) {
                    lemma_save_scan_dpi_kept(args, i + 2, Some(v as u16), sel, s);
                }
            }
        } else if a == "--polling"@ {
            if i + 1 < args.len() {
                if let Ok(hz) = dec_value(args[i + 1], 0xFFFF) {
                    lemma_save_scan_dpi_kept(args, i + 2, pid, sel, ProfileSettingsView { polling_hz: Some(hz as u16), ..s });
                }
            }
        } else if a == "--led"@ {
            if i + 1 < args.len() {
                if let Ok(led) = hex_id_value(args[i + 1], 0xFF) {
                    lemma_save_scan_dpi_kept(args, i + 2, pid, Some(led as u8), s);
                }
            }
        } else if a == "--effect"@ {
            if i + 1 < args.len() {
                if let Some(e) = effect_named(args[i + 1]) {
                    lemma_save_scan_dpi_kept(args, i + 2, pid, sel, settings_with(s, sel, ZoneFlag::Effect(e)));
                }
            }
        } else if a == "--rgb"@ {
            if i + 3 < args.len() {
                if let (Ok(r), Ok(g), Ok(b)) = (
                    dec_value(args[i + 1], 0xFF),
                    dec_value(args[i + 2], 0xFF),
                    dec_value(args[i + 3], 0xFF),
                ) {
                    lemma_save_scan_dpi_kept(args, i + 4, pid, sel, settings_with(s, sel, ZoneFlag::Rgb([r as u8, g as u8, b as u8])));
                }
            }
        } else if a == "--brightness"@ {
            if i + 1 < args.len() {
                if let Ok(v) = dec_value(args[i + 1], 0xFF) {
                    lemma_save_scan_dpi_kept(args, i + 2, pid, sel, settings_with(s, sel, ZoneFlag::Brightness(v as u8)));
                }
            }
        } else if a == "--speed"@ {
            if i + 1 < args.len() {
                if let Ok(v) = dec_value(args[i + 1], 0xFF) {
                    lemma_save_scan_dpi_kept(args, i + 2, pid, sel, settings_with(s, sel, ZoneFlag::Speed(v as u8)));
                }
            }
        }
    }
}

/// Parse `profile save <name> [flags]`: the name (index 0), then the flags.
pub fn parse_save_flags(args: &[String]) -> (r: Result<SaveRequest, SaveFlagError>)
    ensures
        args@.len() == 0 ==> r == Err::<SaveRequest, SaveFlagError>(SaveFlagError::MissingName),
        args@.len() > 0 ==> match (r, save_scan(texts(args@), 1, None, None, empty_settings())) {
            (Ok(req), Ok((pid, s))) => req.name@ == args@[0]@ && req.pid == pid && req.settings@ == s,
            (Err(e), Err(f)) => e == f,
            _ => false,
        },
{
    if args.len() == 0 {
        return Err(SaveFlagError::MissingName);
    }
    let ghost t = texts(args@);
    let name = args[0].clone();
    let mut st = SaveState { pid: None, selected: None, settings: ProfileSettings::default() };
    let n = args.len();
    let mut i: usize = 1;
    assert(st.settings@ =~= empty_settings());
    while i < n
        invariant
            n == args@.len(),
            t == texts(args@),
            t.len() == n,
            1 <= i <= n,
            save_scan(t, 1, None, None, empty_settings()) == scan_from(t, i as int, st),
        decreases n - i,
    {
        match save_flag(args, i, &mut st) {
            Ok(j) => {
                i = j;
            },
            Err(e) => {
                return Err(e);
            },
        }
    }
    Ok(SaveRequest { name, pid: st.pid, settings: st.settings })
}

proof fn lemma_trim_start_ws(s: Seq<char>)
    ensures
        trim_start_ws(s).len() == 0 || !is_whitespace(trim_start_ws(s)[0]),
    decreases s.len(),
{
    if s.len() > 0 && is_whitespace(s[0]) {
        lemma_trim_start_ws(s.drop_first());
    }
}

proof fn lemma_trim_end_ws(s: Seq<char>)
    ensures
        trim_end_ws(s).len() <= s.len(),
        trim_end_ws(s) == s.subrange(0, trim_end_ws(s).len() as int),
        trim_end_ws(s).len() == 0 || !is_whitespace(trim_end_ws(s).last()),
    decreases s.len(),
{
    if s.len() > 0 && is_whitespace(s.last()) {
        lemma_trim_end_ws(s.drop_last());
        assert(s.drop_last().subrange(0, trim_end_ws(s).len() as int) =~= s.subrange(
            0,
            trim_end_ws(s).len() as int,
        ));
    } else {
        assert(s.subrange(0, s.len() as int) =~= s);
    }
}

/// A validated name passes validation unchanged: validating the name that
/// validation returned gives that name again.
pub proof fn lemma_profile_name_idempotent(name: Seq<char>)
    ensures
        profile_name(name) matches Ok(t) ==> profile_name(t) == Ok::<Seq<char>, ProfileNameError>(t),
{
    let u = trim_start_ws(name);
    let t = trim_end_ws(u);
    lemma_trim_start_ws(name);
    lemma_trim_end_ws(u);
    if t.len() > 0 {
        assert(t[0] == u[0]);
    }
    assert(trim_start_ws(t) == t);
    assert(trim_end_ws(t) == t);
    assert(trim_ws(t) == t);
}

proof fn lemma_zone_index_found(zones: Seq<ZoneSettings>, led: u8)
    ensures
        zone_index(zones, led) matches Some(i) ==> 0 <= i < zones.len() && zones[i].led_id == led,
        zone_index(zones, led) is None ==> forall|j: int|
            0 <= j < zones.len() ==> #[trigger] zones[j].led_id != led,
    decreases zones.len(),
{
    if zones.len() > 0 {
        lemma_zone_index_found(zones.drop_last(), led);
        assert forall|j: int| 0 <= j < zones.len() - 1 implies #[trigger] zones[j] == zones.drop_last()[j] by {}
    }
}

/// A lighting flag after `--led <id>` sets the zone of that LED only: the
/// zone for all LEDs, DPI, polling rate and every zone of another LED stay
/// as they were, and the zone of that LED (created if it is new) takes the
/// flag.
pub proof fn lemma_zone_flag_selected_only(s: ProfileSettingsView, led: u8, flag: ZoneFlag)
    ensures
        ({
            let t = settings_with(s, Some(led), flag);
            &&& t.global_zone == s.global_zone
            &&& t.dpi == s.dpi
            &&& t.polling_hz == s.polling_hz
            &&& t.lighting_zones.len() >= s.lighting_zones.len()
            &&& forall|j: int|
                0 <= j < s.lighting_zones.len() && s.lighting_zones[j].led_id != led
                    ==> #[trigger] t.lighting_zones[j] == s.lighting_zones[j]
            &&& exists|k: int|
                0 <= k < t.lighting_zones.len() && t.lighting_zones[k] == zone_with(
                    if k < s.lighting_zones.len() {
                        Some(s.lighting_zones[k])
                    } else {
                        None
                    },
                    led,
                    flag,
                ) && (k < s.lighting_zones.len() ==> s.lighting_zones[k].led_id == led)
        }),
{
    lemma_zone_index_found(s.lighting_zones, led);
    let t = settings_with(s, Some(led), flag);
    match zone_index(s.lighting_zones, led) {
        Some(i) => {
            assert(t.lighting_zones[i] == zone_with(Some(s.lighting_zones[i]), led, flag));
        },
        None => {
            let k = s.lighting_zones.len() as int;
            assert(t.lighting_zones[k] == zone_with(None, led, flag));
        },
    }
}

/// A lighting flag with no `--led` before it sets the zone for all LEDs
/// only (created as static white on the logo LED if there is none yet).
pub proof fn lemma_zone_flag_global_only(s: ProfileSettingsView, flag: ZoneFlag)
    ensures
        ({
            let t = settings_with(s, None, flag);
            &&& t.global_zone == Some(zone_with(s.global_zone, crate::commands::lighting::led_id::LOGO, flag))
            &&& t.lighting_zones == s.lighting_zones
            &&& t.dpi == s.dpi
            &&& t.polling_hz == s.polling_hz
        }),
{
}

} // verus!
