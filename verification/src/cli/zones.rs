//! The lighting editor of the interactive menu: the zones it edits, how a
//! key press steps a row, the commands that send the result, and how the
//! zones are saved to and restored from a profile.
use vstd::prelude::*;

use crate::cli::menu::MenuKey;
use crate::cli::plan::{push_zone, zone_on_leds, DeviceCommand};
use crate::cli::profile::{DpiSettings, ProfileSettings, ProfileSettingsView, ZoneSettings, DEFAULT_SPEED};
use crate::registry::{Capabilities, Effect};
use crate::text::{push_str, string_from_chars};

verus! {

broadcast use vstd::array::group_array_axioms;

/// Row that selects the zone.
pub const LIGHTING_ROW_LED: usize = 0;

/// Row of the effect.
pub const LIGHTING_ROW_EFFECT: usize = 1;

/// Row of the red channel.
pub const LIGHTING_ROW_COLOR_R: usize = 2;

/// Row of the green channel.
pub const LIGHTING_ROW_COLOR_G: usize = 3;

/// Row of the blue channel.
pub const LIGHTING_ROW_COLOR_B: usize = 4;

/// Row of the brightness.
pub const LIGHTING_ROW_BRIGHTNESS: usize = 5;

/// Row of the effect speed.
pub const LIGHTING_ROW_SPEED: usize = 6;

/// Row that links and unlinks the zones.
pub const LIGHTING_ROW_LINK_ZONES: usize = 7;

/// Number of lighting rows.
pub const LIGHTING_ROWS: usize = 8;

/// Change of a color channel or the brightness per key press.
pub const LIGHTING_STEP: i8 = 16;

/// Lowest effect speed.
pub const MIN_SPEED: i16 = 1;

/// Highest effect speed.
pub const MAX_SPEED: i16 = 4;

/// The editor's settings of one LED zone.
#[derive(Debug, Clone, Copy, PartialEq, Eq)]
pub struct ZoneState {
    pub led_id: u8,
    pub effect: Effect,
    pub color: [u8; 3],
    pub brightness: u8,
    pub speed: u8,
}

/// The zones being edited, the selected zone, and whether the zones are
/// linked (edited together).
#[derive(Debug)]
pub struct LightingState {
    pub zones: Vec<ZoneState>,
    pub selected_zone: usize,
    pub link_zones: bool,
}

/// `v` kept to `lo..=hi`, as `clamp` does.
pub open spec fn clamp_int(v: int, lo: int, hi: int) -> int {
    if v < lo {
        lo
    } else if v > hi {
        hi
    } else {
        v
    }
}

/// `value` moved by `delta`, kept to `0..=255`.
pub fn step_u8(value: u8, delta: i8) -> (r: u8)
    ensures
        r == clamp_int(value + delta, 0, 255),
{
    let v: i16 = value as i16 + delta as i16;
    if v < 0 {
        0
    } else if v > 255 {
        255
    } else {
        v as u8
    }
}

/// `value` moved by `delta`, kept to `min..=max`, then cut to a byte.
pub fn step_u8_clamp(value: u8, delta: i8, min: i16, max: i16) -> (r: u8)
    requires
        min <= max,
    ensures
        r == clamp_int(value + delta, min as int, max as int) as u8,
{
    let v: i16 = value as i16 + delta as i16;
    let c: i16 = if v < min {
        min
    } else if v > max {
        max
    } else {
        v
    };
    #[verifier::truncate]
    (c as u8)
}

/// Place of the first `e` in `effects` from `i` on; 0 when there is none.
pub open spec fn effect_position_from(effects: Seq<Effect>, e: Effect, i: int) -> int
    decreases effects.len() - i,
{
    if i < 0 || i >= effects.len() {
        0
    } else if effects[i] == e {
        i
    } else {
        effect_position_from(effects, e, i + 1)
    }
}

/// Place of the first `e` in `effects`; 0 when there is none.
pub open spec fn effect_position(effects: Seq<Effect>, e: Effect) -> int {
    effect_position_from(effects, e, 0)
}

proof fn lemma_effect_position_from(effects: Seq<Effect>, e: Effect, i: int)
    requires
        0 <= i,
    ensures
        0 <= effect_position_from(effects, e, i),
        effects.len() > 0 ==> effect_position_from(effects, e, i) < effects.len(),
    decreases effects.len() - i,
{
    if i < effects.len() && effects[i] != e {
        lemma_effect_position_from(effects, e, i + 1);
    }
}

/// The place of `effect` in the device's effect list, 0 when it is not in it.
pub fn effect_index(effects: &[Effect], effect: Effect) -> (r: usize)
    ensures
        r == effect_position(effects@, effect),
        effects@.len() > 0 ==> r < effects@.len(),
{
    proof {
        lemma_effect_position_from(effects@, effect, 0);
    }
    let mut i: usize = 0;
    while i < effects.len()
        invariant
            i <= effects@.len(),
            effect_position(effects@, effect) == effect_position_from(effects@, effect, i as int),
        decreases effects@.len() - i,
    {
        if effects[i] == effect {
            return i;
        }
        i = i + 1;
    }
    0
}

/// The effect one place `signum` away from `e` in `effects`; `e`'s own
/// place when that would leave the list.
pub open spec fn next_effect(effects: Seq<Effect>, e: Effect, signum: i8) -> Effect {
    let cur = effect_position(effects, e);
    let n = cur + signum;
    if n < 0 || n >= effects.len() {
        effects[cur]
    } else {
        effects[n]
    }
}

/// Color `c` with channel `ch` set to `v`.
pub open spec fn color_with(c: [u8; 3], ch: int, v: u8) -> [u8; 3] {
    [
        if ch == 0 {
            v
        } else {
            c[0]
        },
        if ch == 1 {
            v
        } else {
            c[1]
        },
        if ch == 2 {
            v
        } else {
            c[2]
        },
    ]
}

/// Zone `z` after a step of `signum` on row `row` (effect, a color channel,
/// brightness or speed); other rows leave it.
pub open spec fn stepped_zone(z: ZoneState, row: int, signum: i8, effects: Seq<Effect>) -> ZoneState {
    if row == LIGHTING_ROW_EFFECT {
        ZoneState { effect: next_effect(effects, z.effect, signum), ..z }
    } else if LIGHTING_ROW_COLOR_R <= row <= LIGHTING_ROW_COLOR_B {
        let ch = row - LIGHTING_ROW_COLOR_R;
        ZoneState {
            color: color_with(z.color, ch, clamp_int(z.color[ch] + signum * LIGHTING_STEP, 0, 255) as u8),
            ..z
        }
    } else if row == LIGHTING_ROW_BRIGHTNESS {
        ZoneState { brightness: clamp_int(z.brightness + signum * LIGHTING_STEP, 0, 255) as u8, ..z }
    } else if row == LIGHTING_ROW_SPEED {
        ZoneState { speed: clamp_int(z.speed + signum, MIN_SPEED as int, MAX_SPEED as int) as u8, ..z }
    } else {
        z
    }
}

/// The zone being edited: the first when the zones are linked, else the
/// selected one.
pub open spec fn edited_zone(selected: int, link: bool) -> int {
    if link {
        0
    } else {
        selected
    }
}

/// The zone one place `signum` from `selected` among `len`; none when the
/// zones are linked or the step would leave the list.
pub open spec fn next_zone(signum: i8, selected: int, len: int, link: bool) -> Option<int> {
    if link || (signum == -1 && selected == 0) || (signum == 1 && selected + 1 == len) {
        None
    } else {
        Some(selected + signum)
    }
}

/// Zone `target` taking the effect, color, brightness and speed of `from`.
pub open spec fn linked_copy(target: ZoneState, from: ZoneState) -> ZoneState {
    ZoneState { led_id: target.led_id, ..from }
}

/// Every zone has the effect, color, brightness and speed of the first.
pub open spec fn zones_agree(zones: Seq<ZoneState>) -> bool {
    forall|j: int| 0 <= j < zones.len() ==> #[trigger] zones[j] == linked_copy(zones[j], zones[0])
}

/// A step of `signum` on row `row`: the zones, the selected zone, whether
/// they are linked, and whether any of these changed. The zone row moves the
/// selection (not while the zones are linked), the link row flips the link,
/// the other rows step the edited zone; after such a step with the zones
/// linked, every zone but the first takes the edited zone's settings.
pub open spec fn lighting_step(
    zones: Seq<ZoneState>,
    selected: int,
    link: bool,
    row: int,
    signum: i8,
    effects: Seq<Effect>,
) -> (Seq<ZoneState>, int, bool, bool) {
    let zi = edited_zone(selected, link);
    let (zs, sel, lk, stepped) = if row == LIGHTING_ROW_LED {
        match next_zone(signum, selected, zones.len() as int, link) {
            Some(n) => (zones, n, link, true),
            None => (zones, selected, link, false),
        }
    } else if row == LIGHTING_ROW_LINK_ZONES {
        (zones, selected, !link, true)
    } else {
        (zones.update(zi, stepped_zone(zones[zi], row, signum, effects)), selected, link, true)
    };
    let synced = if stepped && lk {
        Seq::new(
            zs.len(),
            |j: int|
                if j == 0 {
                    zs[0]
                } else {
                    linked_copy(zs[j], zs[zi])
                },
        )
    } else {
        zs
    };
    (synced, sel, lk, !(synced == zones && sel == selected && lk == link))
}

/// The zone the editor starts with for LED `led`: static white, at the
/// brightness read from the device or full brightness, default speed.
pub open spec fn initial_zone(led: u8, brightness: Option<u8>) -> ZoneState {
    ZoneState {
        led_id: led,
        effect: Effect::Static,
        color: [255u8, 255u8, 255u8],
        brightness: match brightness {
            Some(b) => b,
            None => 255u8,
        },
        speed: DEFAULT_SPEED,
    }
}

/// The zone settings a profile saves for zone `z`.
pub open spec fn zone_settings_of(z: ZoneState) -> ZoneSettings {
    ZoneSettings {
        led_id: z.led_id,
        effect: z.effect,
        color: z.color,
        brightness: z.brightness,
        speed: z.speed,
    }
}

/// The zone settings a profile saves for zone `zone`.
pub fn zone_settings_from(zone: &ZoneState) -> (s: ZoneSettings)
    ensures
        s == zone_settings_of(*zone),
{
    ZoneSettings {
        led_id: zone.led_id,
        effect: zone.effect,
        color: zone.color,
        brightness: zone.brightness,
        speed: zone.speed,
    }
}

/// The commands that send the edited zone: to every zone's LED when the
/// zones are linked, else to the edited zone's LED.
pub open spec fn lighting_commands(zones: Seq<ZoneState>, selected: int, link: bool) -> Seq<
    DeviceCommand,
> {
    let z = zones[edited_zone(selected, link)];
    let leds = if link {
        zones.map_values(|zz: ZoneState| zz.led_id)
    } else {
        seq![z.led_id]
    };
    zone_on_leds(zone_settings_of(z), leds)
}

/// The LEDs of zones `zones`.
pub open spec fn leds_of(zones: Seq<ZoneState>) -> Seq<u8> {
    zones.map_values(|z: ZoneState| z.led_id)
}

impl LightingState {
    /// There is a zone and the selected zone is one of them.
    pub open spec fn wf(&self) -> bool {
        self.zones@.len() > 0 && self.selected_zone < self.zones@.len()
    }

    /// The editor's state for a device: with lighting, one zone per LED
    /// reading `(led, brightness read)`, linked, the first selected;
    /// without lighting, no zone.
    pub fn from_readings(lighting: bool, readings: &[(u8, Option<u8>)]) -> (s: Self)
        ensures
            s.selected_zone == 0,
            s.link_zones == lighting,
            s.zones@ == (if lighting {
                readings@.map_values(|r: (u8, Option<u8>)| initial_zone(r.0, r.1))
            } else {
                Seq::empty()
            }),
    {
        let mut zones: Vec<ZoneState> = Vec::new();
        if lighting {
            let mut i: usize = 0;
            while i < readings.len()
                invariant
                    i <= readings@.len(),
                    zones@ == readings@.take(i as int).map_values(
                        |r: (u8, Option<u8>)| initial_zone(r.0, r.1),
                    ),
                decreases readings@.len() - i,
            {
                let (led, b) = readings[i];
                let brightness = match b {
                    Some(v) => v,
                    None => 255,
                };
                zones.push(
                    ZoneState {
                        led_id: led,
                        effect: Effect::Static,
                        color: [255, 255, 255],
                        brightness,
                        speed: DEFAULT_SPEED,
                    },
                );
                assert(zones@ =~= readings@.take(i + 1).map_values(
                    |r: (u8, Option<u8>)| initial_zone(r.0, r.1),
                ));
                i = i + 1;
            }
            assert(readings@.take(readings@.len() as int) =~= readings@);
        }
        LightingState { zones, selected_zone: 0, link_zones: lighting }
    }

    /// The zone being edited: the first when the zones are linked, else the
    /// selected one.
    pub fn select_zone_index(&self) -> (i: usize)
        requires
            self.wf(),
        ensures
            i == edited_zone(self.selected_zone as int, self.link_zones),
            i < self.zones@.len(),
    {
        if self.link_zones {
            0
        } else {
            self.selected_zone
        }
    }

    /// The zone one place `signum` from the selected one, if the zones are
    /// not linked and that place is in the list.
    pub fn next_zone_index(&self, signum: i8) -> (r: Option<usize>)
        requires
            self.wf(),
            -1 <= signum <= 1,
        ensures
            r matches Some(n) ==> next_zone(signum, self.selected_zone as int, self.zones@.len() as int, self.link_zones) == Some(n as int),
            r is None ==> next_zone(signum, self.selected_zone as int, self.zones@.len() as int, self.link_zones) is None,
    {
        let zone_index = self.selected_zone;
        let len = self.zones.len();
        if self.link_zones || (signum == -1 && zone_index == 0) || (signum == 1 && zone_index + 1
            == len) {
            None
        } else if signum == -1 {
            Some(zone_index - 1)
        } else if signum == 1 {
            Some(zone_index + 1)
        } else {
            Some(zone_index)
        }
    }

    /// Step lighting row `row` by `signum` (-1, 0 or 1); returns whether the
    /// state was altered (a value already at its bound stays, and then
    /// nothing is altered). Linked zones keep the edited zone's settings; no
    /// step changes which LEDs the zones stand for.
    pub fn step_lighting_row(&mut self, row: usize, signum: i8, effects: &[Effect]) -> (modified:
        bool)
        requires
            old(self).wf(),
            row < LIGHTING_ROWS,
            -1 <= signum <= 1,
            row == LIGHTING_ROW_EFFECT ==> effects@.len() > 0,
        ensures
            (final(self).zones@, final(self).selected_zone as int, final(self).link_zones, modified)
                == lighting_step(
                old(self).zones@,
                old(self).selected_zone as int,
                old(self).link_zones,
                row as int,
                signum,
                effects@,
            ),
            final(self).wf(),
            leds_of(final(self).zones@) == leds_of(old(self).zones@),
            old(self).link_zones && final(self).link_zones && modified ==> zones_agree(
                final(self).zones@,
            ),
    {
        let ghost old_zones = self.zones@;
        let before = copy_zones(&self.zones);
        let old_selected = self.selected_zone;
        let old_link = self.link_zones;
        let zone_index = self.select_zone_index();
        let did_step = if row == LIGHTING_ROW_LED {
            match self.next_zone_index(signum) {
                Some(n) => {
                    self.selected_zone = n;
                    true
                },
                None => false,
            }
        } else if row == LIGHTING_ROW_LINK_ZONES {
            self.link_zones = !self.link_zones;
            true
        } else {
            let mut zone = self.zones[zone_index];
            if row == LIGHTING_ROW_EFFECT {
                proof {
                    lemma_effect_position_from(effects@, zone.effect, 0);
                }
                let current = effect_index(effects, zone.effect);
                let count = effects.len();
                let next = if signum == -1 {
                    if current == 0 {
                        current
                    } else {
                        current - 1
                    }
                } else if signum == 1 {
                    if current + 1 >= count {
                        current
                    } else {
                        current + 1
                    }
                } else {
                    current
                };
                zone.effect = effects[next];
            } else if row == LIGHTING_ROW_COLOR_R || row == LIGHTING_ROW_COLOR_G || row
                == LIGHTING_ROW_COLOR_B {
                let channel: usize = row - LIGHTING_ROW_COLOR_R;
                let v = step_u8(zone.color[channel], signum * LIGHTING_STEP);
                zone.color[channel] = v;
                assert(zone.color =~= color_with(
                    self.zones@[zone_index as int].color,
                    channel as int,
                    v,
                ));
            } else if row == LIGHTING_ROW_BRIGHTNESS {
                zone.brightness = step_u8(zone.brightness, signum * LIGHTING_STEP);
            } else {
                zone.speed = step_u8_clamp(zone.speed, signum, MIN_SPEED, MAX_SPEED);
            }
            self.zones[zone_index] = zone;
            true
        };
        let ghost stepped = self.zones@;
        let ghost sel = self.selected_zone;
        let ghost lk = self.link_zones;
        if did_step && self.link_zones {
            let from = self.zones[zone_index];
            let mut j: usize = 1;
            while j < self.zones.len()
                invariant
                    1 <= j <= self.zones@.len(),
                    self.zones@.len() == stepped.len(),
                    self.selected_zone == sel,
                    self.link_zones == lk,
                    zone_index < stepped.len(),
                    from == stepped[zone_index as int],
                    forall|k: int|
                        0 <= k < stepped.len() ==> #[trigger] self.zones@[k] == (if 1 <= k < j {
                            linked_copy(stepped[k], from)
                        } else {
                            stepped[k]
                        }),
                decreases self.zones@.len() - j,
            {
                let mut t = self.zones[j];
                t.effect = from.effect;
                t.color = from.color;
                t.brightness = from.brightness;
                t.speed = from.speed;
                self.zones[j] = t;
                j = j + 1;
            }
        }
        assert(leds_of(self.zones@) =~= leds_of(old_zones));
        let ghost expect = lighting_step(
            old_zones,
            old(self).selected_zone as int,
            old(self).link_zones,
            row as int,
            signum,
            effects@,
        );
        assert(self.zones@ =~= expect.0);
        !(zones_equal(&before, &self.zones) && self.selected_zone == old_selected && self.link_zones
            == old_link)
    }

    /// The commands that send the edited zone after a step.
    pub fn commands(&self) -> (c: Vec<DeviceCommand>)
        requires
            self.wf(),
        ensures
            c@ == lighting_commands(self.zones@, self.selected_zone as int, self.link_zones),
    {
        let zone_index = self.select_zone_index();
        let z = zone_settings_from(&self.zones[zone_index]);
        let mut out: Vec<DeviceCommand> = Vec::new();
        if self.link_zones {
            let ghost leds = self.zones@.map_values(|zz: ZoneState| zz.led_id);
            let mut i: usize = 0;
            while i < self.zones.len()
                invariant
                    i <= self.zones@.len(),
                    leds == self.zones@.map_values(|zz: ZoneState| zz.led_id),
                    out@ == zone_on_leds(z, leds.take(i as int)),
                decreases self.zones@.len() - i,
            {
                assert(leds.take(i + 1).drop_last() =~= leds.take(i as int));
                push_zone(&mut out, z, self.zones[i].led_id);
                i = i + 1;
            }
            assert(leds.take(self.zones@.len() as int) =~= leds);
        } else {
            push_zone(&mut out, z, z.led_id);
            assert(seq![z.led_id].drop_last() =~= Seq::<u8>::empty());
            assert(zone_on_leds(z, seq![z.led_id]) =~= out@) by {
                reveal_with_fuel(zone_on_leds, 2);
            }
        }
        out
    }

    /// The same state.
    pub fn duplicate(&self) -> (s: Self)
        ensures
            s.zones@ == self.zones@,
            s.selected_zone == self.selected_zone,
            s.link_zones == self.link_zones,
    {
        LightingState {
            zones: copy_zones(&self.zones),
            selected_zone: self.selected_zone,
            link_zones: self.link_zones,
        }
    }

    /// Step row `row` by `signum` without committing: the stepped state, and
    /// the commands that send it to the device (none when nothing was
    /// altered).
    pub fn adjust_lighting(&self, row: usize, signum: i8, effects: &[Effect]) -> (r: (
        LightingState,
        Vec<DeviceCommand>,
    ))
        requires
            self.wf(),
            row < LIGHTING_ROWS,
            -1 <= signum <= 1,
            row == LIGHTING_ROW_EFFECT ==> effects@.len() > 0,
        ensures
            r.0.wf(),
            ({
                let s = lighting_step(
                    self.zones@,
                    self.selected_zone as int,
                    self.link_zones,
                    row as int,
                    signum,
                    effects@,
                );
                &&& (r.0.zones@, r.0.selected_zone as int, r.0.link_zones) == (s.0, s.1, s.2)
                &&& r.1@ == (if s.3 {
                    lighting_commands(s.0, s.1, s.2)
                } else {
                    Seq::empty()
                })
            }),
    {
        let mut stepped = self.duplicate();
        if stepped.step_lighting_row(row, signum, effects) {
            let commands = stepped.commands();
            (stepped, commands)
        } else {
            (stepped, Vec::new())
        }
    }
}

/// Zones `a` and `b` are the same.
fn zone_eq(a: &ZoneState, b: &ZoneState) -> (r: bool)
    ensures
        r == (*a == *b),
{
    let same = a.led_id == b.led_id && a.effect == b.effect && a.color[0] == b.color[0]
        && a.color[1] == b.color[1] && a.color[2] == b.color[2] && a.brightness == b.brightness
        && a.speed == b.speed;
    if same {
        assert(a.color@ =~= b.color@);
        assert(a.color == b.color);
        assert(*a == *b);
    } else {
        assert(*a != *b) by {
            if *a == *b {
                assert(a.color@[0] == b.color@[0]);
            }
        }
    }
    same
}

/// Whether zone lists `a` and `b` are the same.
fn zones_equal(a: &Vec<ZoneState>, b: &Vec<ZoneState>) -> (r: bool)
    ensures
        r == (a@ == b@),
{
    if a.len() != b.len() {
        return false;
    }
    let mut i: usize = 0;
    while i < a.len()
        invariant
            a@.len() == b@.len(),
            i <= a@.len(),
            forall|k: int| 0 <= k < i ==> a@[k] == b@[k],
        decreases a@.len() - i,
    {
        if !zone_eq(&a[i], &b[i]) {
            return false;
        }
        i = i + 1;
    }
    assert(a@ =~= b@);
    true
}

/// A copy of zone list `zones`.
fn copy_zones(zones: &Vec<ZoneState>) -> (c: Vec<ZoneState>)
    ensures
        c@ == zones@,
{
    let mut c: Vec<ZoneState> = Vec::new();
    let mut i: usize = 0;
    while i < zones.len()
        invariant
            i <= zones@.len(),
            c@ == zones@.take(i as int),
        decreases zones@.len() - i,
    {
        c.push(zones[i]);
        assert(c@ =~= zones@.take(i + 1));
        i = i + 1;
    }
    assert(zones@.take(zones@.len() as int) =~= zones@);
    c
}

/// What the application does after a key press in the lighting editor.
#[derive(Debug, Clone, Copy, PartialEq, Eq, Structural)]
pub enum LightingAction {
    /// Nothing to do.
    Stay,
    /// Back to the main menu.
    Leave,
    /// Step the cursor's row by `signum` and send the result.
    Adjust { signum: i8 },
}

/// The cursor row after key `key` in the lighting editor, and what the
/// application does: back or `q` leaves, up and down move within the rows,
/// left and right step the row down or up.
pub open spec fn lighting_key(row: usize, key: MenuKey) -> (usize, LightingAction) {
    match key {
        MenuKey::Back | MenuKey::Quit => (row, LightingAction::Leave),
        MenuKey::Up => (if row > 0 {
            (row - 1) as usize
        } else {
            row
        }, LightingAction::Stay),
        MenuKey::Down => (if row + 1 < LIGHTING_ROWS {
            (row + 1) as usize
        } else {
            row
        }, LightingAction::Stay),
        MenuKey::Left => (row, LightingAction::Adjust { signum: -1i8 }),
        MenuKey::Right => (row, LightingAction::Adjust { signum: 1i8 }),
        _ => (row, LightingAction::Stay),
    }
}

/// Step the lighting editor's cursor by key `key`.
pub fn lighting_menu_step(row: usize, key: MenuKey) -> (r: (usize, LightingAction))
    requires
        row < LIGHTING_ROWS,
    ensures
        r == lighting_key(row, key),
        r.0 < LIGHTING_ROWS,
{
    match key {
        MenuKey::Back | MenuKey::Quit => (row, LightingAction::Leave),
        MenuKey::Up => (if row > 0 {
            row - 1
        } else {
            row
        }, LightingAction::Stay),
        MenuKey::Down => (if row + 1 < LIGHTING_ROWS {
            row + 1
        } else {
            row
        }, LightingAction::Stay),
        MenuKey::Left => (row, LightingAction::Adjust { signum: -1 }),
        MenuKey::Right => (row, LightingAction::Adjust { signum: 1 }),
        _ => (row, LightingAction::Stay),
    }
}

/// The settings a profile saves from the menu: the DPI and the polling rate
/// shown when the device has them; with zones, the first zone for all LEDs
/// when the zones are linked, else every zone on its own LED.
pub open spec fn saved_settings(
    c: Capabilities,
    x: u16,
    y: u16,
    polling: u16,
    zones: Seq<ZoneState>,
    link: bool,
) -> ProfileSettingsView {
    ProfileSettingsView {
        global_zone: if zones.len() > 0 && link {
            Some(zone_settings_of(zones[0]))
        } else {
            None
        },
        lighting_zones: if zones.len() > 0 && !link {
            zones.map_values(|z: ZoneState| zone_settings_of(z))
        } else {
            Seq::empty()
        },
        dpi: if c.dpi {
            Some(DpiSettings { x, y })
        } else {
            None
        },
        polling_hz: if c.polling_rate {
            Some(polling)
        } else {
            None
        },
    }
}

/// The profile settings of the menu's current state.
pub fn profile_settings_from(
    caps: &Capabilities,
    x: u16,
    y: u16,
    polling: u16,
    state: &LightingState,
) -> (s: ProfileSettings)
    ensures
        s@ == saved_settings(*caps, x, y, polling, state.zones@, state.link_zones),
{
    let mut settings = ProfileSettings::default();
    if caps.dpi {
        settings.dpi = Some(DpiSettings { x, y });
    }
    if caps.polling_rate {
        settings.polling_hz = Some(polling);
    }
    if state.zones.len() == 0 {
        assert(settings@ =~= saved_settings(*caps, x, y, polling, state.zones@, state.link_zones));
        return settings;
    }
    if state.link_zones {
        settings.global_zone = Some(zone_settings_from(&state.zones[0]));
    } else {
        let mut i: usize = 0;
        while i < state.zones.len()
            invariant
                i <= state.zones@.len(),
                settings.global_zone is None,
                settings.dpi == (if caps.dpi {
                    Some(DpiSettings { x, y })
                } else {
                    None
                }),
                settings.polling_hz == (if caps.polling_rate {
                    Some(polling)
                } else {
                    None
                }),
                settings.lighting_zones@ == state.zones@.take(i as int).map_values(
                    |z: ZoneState| zone_settings_of(z),
                ),
            decreases state.zones@.len() - i,
        {
            let z = zone_settings_from(&state.zones[i]);
            settings.lighting_zones.push(z);
            assert(settings.lighting_zones@ =~= state.zones@.take(i + 1).map_values(
                |z: ZoneState| zone_settings_of(z),
            ));
            i = i + 1;
        }
        assert(state.zones@.take(state.zones@.len() as int) =~= state.zones@);
    }
    assert(settings@ =~= saved_settings(*caps, x, y, polling, state.zones@, state.link_zones));
    settings
}

/// Zone `z` taking the effect, color, brightness and speed of settings `s`.
pub open spec fn with_settings(z: ZoneState, s: ZoneSettings) -> ZoneState {
    ZoneState {
        led_id: z.led_id,
        effect: s.effect,
        color: s.color,
        brightness: s.brightness,
        speed: s.speed,
    }
}

/// Place of the first zone from `i` on whose LED is `led`.
pub open spec fn zone_with_led_from(zones: Seq<ZoneState>, led: u8, i: int) -> Option<int>
    decreases zones.len() - i,
{
    if i < 0 || i >= zones.len() {
        None
    } else if zones[i].led_id == led {
        Some(i)
    } else {
        zone_with_led_from(zones, led, i + 1)
    }
}

/// Zones `zones` after each of `updates` in turn is applied to the first
/// zone on its LED (an update for an LED no zone has is passed over).
pub open spec fn restore_zones(zones: Seq<ZoneState>, updates: Seq<ZoneSettings>) -> Seq<ZoneState>
    decreases updates.len(),
{
    if updates.len() == 0 {
        zones
    } else {
        let prev = restore_zones(zones, updates.drop_last());
        let u = updates.last();
        match zone_with_led_from(prev, u.led_id, 0) {
            Some(i) => prev.update(i, with_settings(prev[i], u)),
            None => prev,
        }
    }
}

/// The zones after a profile's settings `s` are applied, on a device with
/// lighting: every zone takes the zone for all LEDs when there is one, else
/// each single zone goes to the first zone on its LED.
pub open spec fn synced_zones(lighting: bool, zones: Seq<ZoneState>, s: ProfileSettingsView) -> Seq<
    ZoneState,
> {
    if !lighting {
        zones
    } else {
        match s.global_zone {
            Some(g) => zones.map_values(|z: ZoneState| with_settings(z, g)),
            None => restore_zones(zones, s.lighting_zones),
        }
    }
}

proof fn lemma_zone_with_led_from(zones: Seq<ZoneState>, led: u8, i: int)
    requires
        0 <= i,
    ensures
        zone_with_led_from(zones, led, i) matches Some(k) ==> i <= k < zones.len()
            && zones[k].led_id == led,
    decreases zones.len() - i,
{
    if i < zones.len() && zones[i].led_id != led {
        lemma_zone_with_led_from(zones, led, i + 1);
    }
}

proof fn lemma_restore_zones_len(zones: Seq<ZoneState>, updates: Seq<ZoneSettings>)
    ensures
        restore_zones(zones, updates).len() == zones.len(),
        leds_of(restore_zones(zones, updates)) == leds_of(zones),
    decreases updates.len(),
{
    if updates.len() > 0 {
        lemma_restore_zones_len(zones, updates.drop_last());
        let prev = restore_zones(zones, updates.drop_last());
        lemma_zone_with_led_from(prev, updates.last().led_id, 0);
        assert(leds_of(restore_zones(zones, updates)) =~= leds_of(prev));
    }
}

/// The first zone whose LED is `led`.
fn find_zone(zones: &Vec<ZoneState>, led: u8) -> (r: Option<usize>)
    ensures
        r matches Some(i) ==> zone_with_led_from(zones@, led, 0) == Some(i as int),
        r is None ==> zone_with_led_from(zones@, led, 0) is None,
{
    let mut i: usize = 0;
    while i < zones.len()
        invariant
            i <= zones@.len(),
            zone_with_led_from(zones@, led, 0) == zone_with_led_from(zones@, led, i as int),
        decreases zones@.len() - i,
    {
        if zones[i].led_id == led {
            return Some(i);
        }
        i = i + 1;
    }
    None
}

/// Bring the editor's zones in line with a profile that was applied (the
/// device cannot be asked for its effects and colors). The selection and
/// the link stay; so do the LEDs the zones stand for.
pub fn sync_lighting_from_profile(caps: &Capabilities, state: &mut LightingState, settings: &ProfileSettings)
    ensures
        final(state).zones@ == synced_zones(caps.lighting, old(state).zones@, settings@),
        final(state).selected_zone == old(state).selected_zone,
        final(state).link_zones == old(state).link_zones,
        leds_of(final(state).zones@) == leds_of(old(state).zones@),
{
    if !caps.lighting {
        return;
    }
    let ghost start = state.zones@;
    let ghost sel = state.selected_zone;
    let ghost lk = state.link_zones;
    match settings.global_zone {
        Some(g) => {
            let mut i: usize = 0;
            while i < state.zones.len()
                invariant
                    i <= state.zones@.len(),
                    state.zones@.len() == start.len(),
                    state.selected_zone == sel,
                    state.link_zones == lk,
                    forall|k: int|
                        0 <= k < start.len() ==> #[trigger] state.zones@[k] == (if k < i {
                            with_settings(start[k], g)
                        } else {
                            start[k]
                        }),
                decreases state.zones@.len() - i,
            {
                let mut z = state.zones[i];
                z.effect = g.effect;
                z.color = g.color;
                z.brightness = g.brightness;
                z.speed = g.speed;
                state.zones[i] = z;
                i = i + 1;
            }
            assert(state.zones@ =~= start.map_values(|z: ZoneState| with_settings(z, g)));
            assert(leds_of(state.zones@) =~= leds_of(start));
        },
        None => {
            let mut k: usize = 0;
            while k < settings.lighting_zones.len()
                invariant
                    k <= settings.lighting_zones@.len(),
                    state.selected_zone == sel,
                    state.link_zones == lk,
                    state.zones@ == restore_zones(start, settings.lighting_zones@.take(k as int)),
                decreases settings.lighting_zones@.len() - k,
            {
                let u = settings.lighting_zones[k];
                let ghost prev = state.zones@;
                assert(settings.lighting_zones@.take(k + 1).drop_last() =~= settings.lighting_zones@.take(
                    k as int,
                ));
                match find_zone(&state.zones, u.led_id) {
                    Some(i) => {
                        proof {
                            lemma_zone_with_led_from(prev, u.led_id, 0);
                        }
                        let mut z = state.zones[i];
                        z.effect = u.effect;
                        z.color = u.color;
                        z.brightness = u.brightness;
                        z.speed = u.speed;
                        state.zones[i] = z;
                    },
                    None => {},
                }
                assert(state.zones@ =~= restore_zones(start, settings.lighting_zones@.take(k + 1)));
                k = k + 1;
            }
            assert(settings.lighting_zones@.take(settings.lighting_zones@.len() as int)
                =~= settings.lighting_zones@);
            proof {
                lemma_restore_zones_len(start, settings.lighting_zones@);
            }
        },
    }
}

/// No two zones stand for the same LED.
pub open spec fn distinct_leds(zones: Seq<ZoneState>) -> bool {
    forall|i: int, j: int|
        0 <= i < j < zones.len() ==> #[trigger] zones[i].led_id != #[trigger] zones[j].led_id
}

proof fn lemma_zone_with_own_led(zones: Seq<ZoneState>, m: int, i: int)
    requires
        distinct_leds(zones),
        0 <= i <= m < zones.len(),
    ensures
        zone_with_led_from(zones, zones[m].led_id, i) == Some(m),
    decreases m - i,
{
    if i < m {
        assert(zones[i].led_id != zones[m].led_id);
        lemma_zone_with_own_led(zones, m, i + 1);
    }
}

proof fn lemma_restore_own_settings(zones: Seq<ZoneState>, k: int)
    requires
        distinct_leds(zones),
        0 <= k <= zones.len(),
    ensures
        restore_zones(zones, zones.map_values(|z: ZoneState| zone_settings_of(z)).take(k)) == zones,
    decreases k,
{
    let all = zones.map_values(|z: ZoneState| zone_settings_of(z));
    if k > 0 {
        assert(all.take(k).drop_last() =~= all.take(k - 1));
        lemma_restore_own_settings(zones, k - 1);
        lemma_zone_with_own_led(zones, k - 1, 0);
        assert(with_settings(zones[k - 1], all.take(k).last()) == zones[k - 1]);
        assert(zones.update(k - 1, zones[k - 1]) =~= zones);
    } else {
        assert(all.take(0) =~= Seq::<ZoneSettings>::empty());
    }
}

/// What the menu saves to a profile, it restores: applying the settings
/// saved from the menu's zones gives back the same zones, where no two
/// zones share an LED and, when linked, the zones agree.
pub proof fn lemma_saved_zones_restore(
    c: Capabilities,
    x: u16,
    y: u16,
    polling: u16,
    zones: Seq<ZoneState>,
    link: bool,
)
    requires
        distinct_leds(zones),
        link ==> zones_agree(zones),
    ensures
        synced_zones(true, zones, saved_settings(c, x, y, polling, zones, link)) == zones,
{
    let s = saved_settings(c, x, y, polling, zones, link);
    if zones.len() == 0 {
        assert(restore_zones(zones, s.lighting_zones) == zones);
    } else if link {
        assert forall|j: int| 0 <= j < zones.len() implies #[trigger] with_settings(
            zones[j],
            zone_settings_of(zones[0]),
        ) == zones[j] by {
            assert(zones[j] == linked_copy(zones[j], zones[0]));
        }
        assert(zones.map_values(|z: ZoneState| with_settings(z, zone_settings_of(zones[0])))
            =~= zones);
    } else {
        let all = zones.map_values(|z: ZoneState| zone_settings_of(z));
        lemma_restore_own_settings(zones, zones.len() as int);
        assert(all.take(zones.len() as int) =~= all);
    }
}

/// The name the menu shows for an effect.
pub open spec fn effect_label(e: Effect) -> Seq<char> {
    match e {
        Effect::Off => "Off"@,
        Effect::Static => "Static"@,
        Effect::Breathing => "Breathing"@,
        Effect::Spectrum => "Spectrum"@,
        Effect::Wave => "Wave"@,
        Effect::Reactive => "Reactive"@,
        Effect::Starlight => "Starlight"@,
        Effect::Custom => "custom"@,
    }
}

/// The name the menu shows for `effect`.
pub fn effect_name(effect: Effect) -> (r: &'static str)
    ensures
        r@ == effect_label(effect),
{
    match effect {
        Effect::Off => "Off",
        Effect::Static => "Static",
        Effect::Breathing => "Breathing",
        Effect::Spectrum => "Spectrum",
        Effect::Wave => "Wave",
        Effect::Reactive => "Reactive",
        Effect::Starlight => "Starlight",
        Effect::Custom => "custom",
    }
}

/// The status text recorded when the device refuses command `cmd` with
/// reason `e`.
pub open spec fn failure_text(cmd: DeviceCommand, e: Seq<char>) -> Seq<char> {
    match cmd {
        DeviceCommand::Effect { .. } => "set effect failed: "@ + e,
        DeviceCommand::Brightness { .. } => "set brightness failed: "@ + e,
        DeviceCommand::Dpi { .. } => "set dpi failed: "@ + e,
        DeviceCommand::Polling { .. } => "set polling rate failed: "@ + e,
    }
}

/// The status after command `cmd` was sent with result `result`: the
/// failure when it failed, cleared when an LED's brightness (its last
/// command) went through, else as it was.
pub open spec fn sent_status(
    cmd: DeviceCommand,
    result: Result<(), Seq<char>>,
    status: Option<Seq<char>>,
) -> Option<Seq<char>> {
    match result {
        Err(e) => Some(failure_text(cmd, e)),
        Ok(_) => if cmd is Brightness {
            None
        } else {
            status
        },
    }
}

/// The command to send after command `next` of `len` had result `result`:
/// the next one, except that an LED whose effect failed gets no brightness.
pub open spec fn next_after(cmd: DeviceCommand, next: int, len: int, result: Result<(), Seq<char>>) -> int {
    if result is Err && cmd is Effect {
        if next + 2 < len {
            next + 2
        } else {
            len
        }
    } else {
        next + 1
    }
}

/// A status as plain values.
pub open spec fn status_view(s: Option<String>) -> Option<Seq<char>> {
    match s {
        Some(m) => Some(m@),
        None => None,
    }
}

/// The sending of a lighting change: its commands, the next one to send,
/// whether one failed, and the status line.
#[derive(Debug)]
pub struct LightingSend {
    pub commands: Vec<DeviceCommand>,
    pub next: usize,
    pub failed: bool,
    pub status: Option<String>,
}

impl LightingSend {
    /// Start sending `commands`, the status line being `status`.
    pub fn new(commands: Vec<DeviceCommand>, status: Option<String>) -> (s: Self)
        ensures
            s.commands@ == commands@,
            s.next == 0,
            !s.failed,
            status_view(s.status) == status_view(status),
    {
        LightingSend { commands, next: 0, failed: false, status }
    }

    /// Whether every command to send was sent.
    pub fn done(&self) -> (r: bool)
        ensures
            r == (self.next >= self.commands@.len()),
    {
        self.next >= self.commands.len()
    }

    /// The command to send now.
    pub fn current(&self) -> (c: DeviceCommand)
        requires
            self.next < self.commands@.len(),
        ensures
            c == self.commands@[self.next as int],
    {
        self.commands[self.next]
    }

    /// Record the result of sending the current command (`Err` holding the
    /// text of why it failed).
    pub fn record(&mut self, result: Result<(), String>)
        requires
            old(self).next < old(self).commands@.len(),
        ensures
            ({
                let cmd = old(self).commands@[old(self).next as int];
                let res = match result {
                    Ok(_) => Ok(()),
                    Err(e) => Err(e@),
                };
                &&& final(self).commands@ == old(self).commands@
                &&& final(self).next == next_after(
                    cmd,
                    old(self).next as int,
                    old(self).commands@.len() as int,
                    res,
                )
                &&& final(self).failed == (old(self).failed || result is Err)
                &&& status_view(final(self).status) == sent_status(
                    cmd,
                    res,
                    status_view(old(self).status),
                )
            }),
    {
        let cmd = self.commands[self.next];
        let len = self.commands.len();
        match result {
            Ok(()) => {
                if let DeviceCommand::Brightness { .. } = cmd {
                    self.status = None;
                }
                self.next = self.next + 1;
            },
            Err(e) => {
                let mut text: Vec<char> = Vec::new();
                match cmd {
                    DeviceCommand::Effect { .. } => push_str(&mut text, "set effect failed: "),
                    DeviceCommand::Brightness { .. } => push_str(&mut text, "set brightness failed: "),
                    DeviceCommand::Dpi { .. } => push_str(&mut text, "set dpi failed: "),
                    DeviceCommand::Polling { .. } => push_str(&mut text, "set polling rate failed: "),
                }
                push_str(&mut text, e.as_str());
                self.status = Some(string_from_chars(&text));
                self.failed = true;
                if let DeviceCommand::Effect { .. } = cmd {
                    self.next = if len - self.next > 2 {
                        self.next + 2
                    } else {
                        len
                    };
                } else {
                    self.next = self.next + 1;
                }
            },
        }
    }
}

/// Finish a lighting change once every command was sent: the stepped state
/// is kept only when the device accepted every command; otherwise the state
/// stays as it was. Gives the status line to show.
pub fn commit_lighting(state: &mut LightingState, stepped: LightingState, send: LightingSend) -> (status:
    Option<String>)
    requires
        old(state).wf(),
        stepped.wf(),
        send.next >= send.commands@.len(),
    ensures
        final(state).wf(),
        !send.failed ==> final(state).zones@ == stepped.zones@ && final(state).selected_zone
            == stepped.selected_zone && final(state).link_zones == stepped.link_zones,
        send.failed ==> final(state).zones@ == old(state).zones@ && final(state).selected_zone
            == old(state).selected_zone && final(state).link_zones == old(state).link_zones,
        status_view(status) == status_view(send.status),
{
    if !send.failed {
        *state = stepped;
    }
    send.status
}

} // verus!
