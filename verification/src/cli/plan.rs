//! Plans of device commands: what applying a profile sends, how a lighting
//! effect of a zone becomes a request report, and the DPI stage table that
//! the `dpi-stages` command builds.
use vstd::prelude::*;

use crate::cli::profile::{ProfileSettings, ProfileSettingsView, ZoneSettings};
use crate::commands::dpi::{self, set_xy_args, DpiStage};
use crate::commands::lighting::{
    self, ext_breathing_single_args, ext_custom_draw_args, ext_none_args, ext_reactive_args,
    ext_spectrum_args, ext_starlight_single_args, ext_static_args, ext_wave_args, led_id,
    EXT_CLASS, EXT_CMD_BRIGHTNESS_SET, EXT_CMD_EFFECT,
};
use crate::commands::polling::{self, spec_code_v1};
use crate::commands::{NOSTORE, VARSTORE};
use crate::registry::{Capabilities, DeviceDef, Effect};
use crate::report::RazerReport;
use crate::text::{decimal, push_decimal, push_str, string_from_chars};

verus! {

/// Which kinds of settings were left out because the device lacks them.
#[derive(Debug, Clone, Copy, PartialEq, Eq, Structural)]
pub struct Dropped {
    pub dpi: bool,
    pub lighting: bool,
    pub polling: bool,
}

/// Whether settings hold any lighting.
pub open spec fn has_lighting(s: ProfileSettingsView) -> bool {
    s.global_zone is Some || s.lighting_zones.len() > 0
}

/// `s` without the kinds of settings that capabilities `c` lack.
pub open spec fn supported_settings(s: ProfileSettingsView, c: Capabilities) -> ProfileSettingsView {
    ProfileSettingsView {
        global_zone: if c.lighting {
            s.global_zone
        } else {
            None
        },
        lighting_zones: if c.lighting {
            s.lighting_zones
        } else {
            Seq::empty()
        },
        dpi: if c.dpi {
            s.dpi
        } else {
            None
        },
        polling_hz: if c.polling_rate {
            s.polling_hz
        } else {
            None
        },
    }
}

/// Leave out the settings a device cannot take, and say which kinds were
/// present and left out.
pub fn drop_unsupported(settings: ProfileSettings, caps: &Capabilities) -> (r: (
    ProfileSettings,
    Dropped,
))
    ensures
        r.0@ == supported_settings(settings@, *caps),
        r.1.dpi == (settings.dpi is Some && !caps.dpi),
        r.1.lighting == (has_lighting(settings@) && !caps.lighting),
        r.1.polling == (settings.polling_hz is Some && !caps.polling_rate),
{
    let mut s = settings;
    let ghost before = s@;
    let drop_dpi = s.dpi.is_some() && !caps.dpi;
    let drop_lighting = (s.global_zone.is_some() || s.lighting_zones.len() > 0) && !caps.lighting;
    let drop_polling = s.polling_hz.is_some() && !caps.polling_rate;
    if !caps.dpi {
        s.dpi = None;
    }
    if !caps.lighting {
        s.global_zone = None;
        s.lighting_zones = Vec::new();
    }
    if !caps.polling_rate {
        s.polling_hz = None;
    }
    assert(s@ =~= supported_settings(before, *caps));
    (s, Dropped { dpi: drop_dpi, lighting: drop_lighting, polling: drop_polling })
}

/// One device command of a plan.
#[derive(Debug, Clone, Copy, PartialEq, Eq)]
pub enum DeviceCommand {
    /// Set a lighting effect on an LED.
    Effect { led: u8, effect: Effect, color: [u8; 3], speed: u8 },
    /// Set an LED's brightness.
    Brightness { led: u8, value: u8 },
    /// Set direct X/Y DPI.
    Dpi { x: u16, y: u16 },
    /// Set the classic polling rate.
    Polling { hz: u16 },
}

/// The commands that set zone `z` on LED `led`: its effect, then its
/// brightness.
pub open spec fn zone_commands(z: ZoneSettings, led: u8) -> Seq<DeviceCommand> {
    seq![
        DeviceCommand::Effect { led, effect: z.effect, color: z.color, speed: z.speed },
        DeviceCommand::Brightness { led, value: z.brightness },
    ]
}

/// Zone `z` set on each LED of `leds` in turn.
pub open spec fn zone_on_leds(z: ZoneSettings, leds: Seq<u8>) -> Seq<DeviceCommand>
    decreases leds.len(),
{
    if leds.len() == 0 {
        Seq::empty()
    } else {
        zone_on_leds(z, leds.drop_last()) + zone_commands(z, leds.last())
    }
}

/// Each zone of `zones` set on its own LED, in turn.
pub open spec fn zones_on_own_leds(zones: Seq<ZoneSettings>) -> Seq<DeviceCommand>
    decreases zones.len(),
{
    if zones.len() == 0 {
        Seq::empty()
    } else {
        zones_on_own_leds(zones.drop_last()) + zone_commands(zones.last(), zones.last().led_id)
    }
}

/// The LEDs that the zone for all LEDs reaches: every LED region of the
/// device, or the logo LED when the device lists none.
pub open spec fn all_leds(def: DeviceDef) -> Seq<u8> {
    if def.led_regions@.len() == 0 {
        seq![led_id::LOGO]
    } else {
        def.led_regions@.map_values(|r: crate::registry::LedRegion| r.id)
    }
}

/// The commands that apply settings `s` to device `def`: lighting first
/// (the zone for all LEDs on each LED, then each single zone), then DPI,
/// then the polling rate; each kind only when the device has it.
pub open spec fn apply_plan(def: DeviceDef, s: ProfileSettingsView) -> Seq<DeviceCommand> {
    let lighting = if def.capabilities.lighting {
        (match s.global_zone {
            Some(z) => zone_on_leds(z, all_leds(def)),
            None => Seq::empty(),
        }) + zones_on_own_leds(s.lighting_zones)
    } else {
        Seq::empty()
    };
    let dpi = match s.dpi {
        Some(d) => if def.capabilities.dpi {
            seq![DeviceCommand::Dpi { x: d.x, y: d.y }]
        } else {
            Seq::empty()
        },
        None => Seq::empty(),
    };
    let polling = match s.polling_hz {
        Some(hz) => if def.capabilities.polling_rate {
            seq![DeviceCommand::Polling { hz }]
        } else {
            Seq::empty()
        },
        None => Seq::empty(),
    };
    lighting + dpi + polling
}

pub(crate) fn push_zone(out: &mut Vec<DeviceCommand>, z: ZoneSettings, led: u8)
    ensures
        final(out)@ == old(out)@ + zone_commands(z, led),
{
    out.push(DeviceCommand::Effect { led, effect: z.effect, color: z.color, speed: z.speed });
    out.push(DeviceCommand::Brightness { led, value: z.brightness });
    assert(final(out)@ =~= old(out)@ + zone_commands(z, led));
}

/// The commands that apply a profile's settings to a device.
pub fn plan_settings(def: &DeviceDef, settings: &ProfileSettings) -> (plan: Vec<DeviceCommand>)
    ensures
        plan@ == apply_plan(*def, settings@),
{
    let mut plan: Vec<DeviceCommand> = Vec::new();
    if def.capabilities.lighting {
        if let Some(z) = settings.global_zone {
            if def.led_regions.len() == 0 {
                push_zone(&mut plan, z, led_id::LOGO);
                assert(seq![led_id::LOGO].drop_last() =~= Seq::<u8>::empty());
                assert(zone_on_leds(z, seq![led_id::LOGO]) =~= zone_commands(z, led_id::LOGO)) by {
                    reveal_with_fuel(zone_on_leds, 2);
                }
                assert(plan@ =~= zone_on_leds(z, all_leds(*def)));
            } else {
                let ghost leds = all_leds(*def);
                let mut i: usize = 0;
                while i < def.led_regions.len()
                    invariant
                        leds == def.led_regions@.map_values(|r: crate::registry::LedRegion| r.id),
                        i <= def.led_regions@.len(),
                        plan@ == zone_on_leds(z, leds.take(i as int)),
                    decreases def.led_regions@.len() - i,
                {
                    assert(leds.take(i + 1).drop_last() =~= leds.take(i as int));
                    push_zone(&mut plan, z, def.led_regions[i].id);
                    i = i + 1;
                }
                assert(leds.take(def.led_regions@.len() as int) =~= leds);
            }
        }
        let ghost head = plan@;
        let mut k: usize = 0;
        while k < settings.lighting_zones.len()
            invariant
                k <= settings.lighting_zones@.len(),
                plan@ == head + zones_on_own_leds(settings.lighting_zones@.take(k as int)),
            decreases settings.lighting_zones@.len() - k,
        {
            let z = settings.lighting_zones[k];
            assert(settings.lighting_zones@.take(k + 1).drop_last() =~= settings.lighting_zones@.take(
                k as int,
            ));
            push_zone(&mut plan, z, z.led_id);
            assert(plan@ =~= head + zones_on_own_leds(settings.lighting_zones@.take(k + 1)));
            k = k + 1;
        }
        assert(settings.lighting_zones@.take(settings.lighting_zones@.len() as int)
            =~= settings.lighting_zones@);
    }
    let ghost lighting = plan@;
    if def.capabilities.dpi {
        if let Some(d) = settings.dpi {
            plan.push(DeviceCommand::Dpi { x: d.x, y: d.y });
        }
    }
    let ghost with_dpi = plan@;
    if def.capabilities.polling_rate {
        if let Some(hz) = settings.polling_hz {
            plan.push(DeviceCommand::Polling { hz });
        }
    }
    assert(plan@ =~= apply_plan(*def, settings@));
    plan
}

/// Argument bytes of the extended-matrix request that sets `effect` on LED
/// `led`: waves run in direction 1, reactive and starlight use `speed`,
/// custom draw arms the uploaded frame.
pub open spec fn effect_args(varstore: u8, led: u8, effect: Effect, color: [u8; 3], speed: u8) -> Seq<u8> {
    match effect {
        Effect::Off => ext_none_args(varstore, led),
        Effect::Static => ext_static_args(varstore, led, color),
        Effect::Breathing => ext_breathing_single_args(varstore, led, color),
        Effect::Spectrum => ext_spectrum_args(varstore, led),
        Effect::Wave => ext_wave_args(varstore, led, 0x01),
        Effect::Reactive => ext_reactive_args(varstore, led, speed, color),
        Effect::Starlight => ext_starlight_single_args(varstore, led, speed, color),
        Effect::Custom => ext_custom_draw_args(),
    }
}

/// The bytes that set each effect on LED `led` with storage byte `v`: the
/// storage byte, the LED, the effect's code (none 0x00, static 0x01,
/// breathing 0x02, spectrum 0x03, wave 0x04, reactive 0x05, starlight 0x07,
/// custom 0x08), then its parameters: static, single-colour breathing
/// (mode 0x01), reactive and starlight carry one colour in red, green, blue
/// order; wave runs in direction 1 at speed 0x28; reactive and starlight
/// carry their speed clamped to 1..=4 and 1..=3; custom draw arms the
/// uploaded frame and names no LED.
pub proof fn lemma_effect_args_layout(v: u8, led: u8, effect: Effect, c: [u8; 3], speed: u8)
    ensures
        effect is Off ==> effect_args(v, led, effect, c, speed) == seq![v, led, 0x00u8, 0u8, 0u8, 0u8],
        effect is Static ==> effect_args(v, led, effect, c, speed) == seq![
            v,
            led,
            0x01u8,
            0u8,
            0u8,
            0x01u8,
            c[0],
            c[1],
            c[2],
        ],
        effect is Breathing ==> effect_args(v, led, effect, c, speed) == seq![
            v,
            led,
            0x02u8,
            0x01u8,
            0u8,
            0x01u8,
            c[0],
            c[1],
            c[2],
        ],
        effect is Spectrum ==> effect_args(v, led, effect, c, speed) == seq![v, led, 0x03u8, 0u8, 0u8, 0u8],
        effect is Wave ==> effect_args(v, led, effect, c, speed) == seq![
            v,
            led,
            0x04u8,
            0x01u8,
            0x28u8,
            0u8,
        ],
        effect is Reactive ==> effect_args(v, led, effect, c, speed) == seq![
            v,
            led,
            0x05u8,
            0u8,
            (if speed < 1 {
                1u8
            } else if speed > 4 {
                4u8
            } else {
                speed
            }),
            0x01u8,
            c[0],
            c[1],
            c[2],
        ],
        effect is Starlight ==> effect_args(v, led, effect, c, speed) == seq![
            v,
            led,
            0x07u8,
            0u8,
            (if speed < 1 {
                1u8
            } else if speed > 3 {
                3u8
            } else {
                speed
            }),
            0x01u8,
            c[0],
            c[1],
            c[2],
        ],
        effect is Custom ==> effect_args(v, led, effect, c, speed) == seq![
            0u8,
            0u8,
            0x08u8,
            0u8,
            0u8,
            0u8,
            0u8,
            0u8,
            0u8,
            0u8,
            0u8,
            0u8,
        ],
{
}

/// The request of each planned command: an effect or brightness goes to
/// the extended-matrix class (0x0F) as command 0x02 or 0x04, stored
/// volatile (0x00); a DPI goes to class 0x04 as command 0x05, stored
/// persistent (0x01), both axes clamped to 100..=45000 and sent big-endian;
/// a polling rate goes to class 0x00 as command 0x05 with code 0x01 for
/// 1000 Hz, 0x08 for 125 Hz and 0x02 otherwise.
pub proof fn lemma_command_request_layout(transaction_id: u8, cmd: DeviceCommand, r: RazerReport)
    requires
        command_report_ok(transaction_id, cmd, r),
    ensures
        cmd matches DeviceCommand::Effect { led, effect, color, speed } ==> r.is_request(
            transaction_id,
            0x0F,
            0x02,
            effect_args(0x00, led, effect, color, speed),
        ),
        cmd matches DeviceCommand::Brightness { led, value } ==> r.is_request(
            transaction_id,
            0x0F,
            0x04,
            seq![0x00u8, led, value],
        ),
        cmd matches DeviceCommand::Dpi { x, y } ==> ({
            let cx: int = if x < 100 {
                100
            } else if x > 45000 {
                45000
            } else {
                x as int
            };
            let cy: int = if y < 100 {
                100
            } else if y > 45000 {
                45000
            } else {
                y as int
            };
            r.is_request(
                transaction_id,
                0x04,
                0x05,
                seq![
                    0x01u8,
                    (cx / 256) as u8,
                    (cx % 256) as u8,
                    (cy / 256) as u8,
                    (cy % 256) as u8,
                    0u8,
                    0u8,
                ],
            )
        }),
        cmd matches DeviceCommand::Polling { hz } ==> r.is_request(
            transaction_id,
            0x00,
            0x05,
            seq![
                (if hz == 1000 {
                    0x01u8
                } else if hz == 125 {
                    0x08u8
                } else {
                    0x02u8
                }),
            ],
        ),
{
    match cmd {
        DeviceCommand::Dpi { x, y } => {
            assert(set_xy_args(VARSTORE, x, y) =~= seq![
                0x01u8,
                (dpi::clamped_dpi(x) as int / 256) as u8,
                (dpi::clamped_dpi(x) as int % 256) as u8,
                (dpi::clamped_dpi(y) as int / 256) as u8,
                (dpi::clamped_dpi(y) as int % 256) as u8,
                0u8,
                0u8,
            ]);
        },
        DeviceCommand::Polling { hz } => {
            assert(seq![spec_code_v1(hz)] =~= seq![
                (if hz == 1000 {
                    0x01u8
                } else if hz == 125 {
                    0x08u8
                } else {
                    0x02u8
                }),
            ]);
        },
        _ => {},
    }
}

/// The extended-matrix request that sets a lighting effect on an LED.
pub fn effect_request(
    transaction_id: u8,
    varstore: u8,
    led: u8,
    effect: Effect,
    color: [u8; 3],
    speed: u8,
) -> (r: RazerReport)
    ensures
        r.is_request(
            transaction_id,
            EXT_CLASS,
            EXT_CMD_EFFECT,
            effect_args(varstore, led, effect, color, speed),
        ),
{
    match effect {
        Effect::Off => lighting::build_ext_effect_none(transaction_id, varstore, led),
        Effect::Static => lighting::build_ext_effect_static(transaction_id, varstore, led, color),
        Effect::Breathing => lighting::build_ext_effect_breathing_single(
            transaction_id,
            varstore,
            led,
            color,
        ),
        Effect::Spectrum => lighting::build_ext_effect_spectrum(transaction_id, varstore, led),
        Effect::Wave => lighting::build_ext_effect_wave(transaction_id, varstore, led, 0x01),
        Effect::Reactive => lighting::build_ext_effect_reactive(
            transaction_id,
            varstore,
            led,
            speed,
            color,
        ),
        Effect::Starlight => lighting::build_ext_effect_starlight_single(
            transaction_id,
            varstore,
            led,
            speed,
            color,
        ),
        Effect::Custom => lighting::build_ext_effect_custom_draw(transaction_id),
    }
}

/// The request report that carries a planned command. Lighting is sent
/// volatile (NOSTORE); DPI is sent persistent (VARSTORE), as devices refuse
/// a volatile DPI write.
pub open spec fn command_report_ok(transaction_id: u8, cmd: DeviceCommand, r: RazerReport) -> bool {
    match cmd {
        DeviceCommand::Effect { led, effect, color, speed } => r.is_request(
            transaction_id,
            EXT_CLASS,
            EXT_CMD_EFFECT,
            effect_args(NOSTORE, led, effect, color, speed),
        ),
        DeviceCommand::Brightness { led, value } => r.is_request(
            transaction_id,
            EXT_CLASS,
            EXT_CMD_BRIGHTNESS_SET,
            seq![NOSTORE, led, value],
        ),
        DeviceCommand::Dpi { x, y } => r.is_request(
            transaction_id,
            dpi::CLASS,
            dpi::CMD_SET_XY,
            set_xy_args(VARSTORE, x, y),
        ),
        DeviceCommand::Polling { hz } => r.is_request(
            transaction_id,
            polling::CLASS,
            polling::CMD_SET,
            seq![spec_code_v1(hz)],
        ),
    }
}

/// Build the request report for a planned command.
pub fn command_request(transaction_id: u8, cmd: DeviceCommand) -> (r: RazerReport)
    ensures
        command_report_ok(transaction_id, cmd, r),
{
    match cmd {
        DeviceCommand::Effect { led, effect, color, speed } => effect_request(
            transaction_id,
            NOSTORE,
            led,
            effect,
            color,
            speed,
        ),
        DeviceCommand::Brightness { led, value } => lighting::build_ext_brightness_set(
            transaction_id,
            NOSTORE,
            led,
            value,
        ),
        DeviceCommand::Dpi { x, y } => dpi::build_set_dpi_xy(transaction_id, VARSTORE, x, y),
        DeviceCommand::Polling { hz } => polling::build_set_polling_rate(transaction_id, hz),
    }
}

/// Fewest and most values the `dpi-stages` command takes.
pub const MIN_STAGE_VALUES: usize = 2;

/// The stage table for the `dpi-stages` command: stage `i` has index `i` and
/// value `values[i]` on both axes; `None` unless there are 2 to 5 values.
pub fn stages_from_values(values: &[u16]) -> (r: Option<Vec<DpiStage>>)
    ensures
        (values@.len() < MIN_STAGE_VALUES || values@.len() > dpi::MAX_STAGES) <==> r is None,
        r matches Some(stages) ==> stages@.len() == values@.len() && forall|i: int|
            0 <= i < values@.len() ==> #[trigger] stages@[i] == (DpiStage {
                index: i as u8,
                dpi_x: values@[i],
                dpi_y: values@[i],
            }),
{
    if values.len() < MIN_STAGE_VALUES || values.len() > dpi::MAX_STAGES {
        return None;
    }
    let mut stages: Vec<DpiStage> = Vec::new();
    let mut i: usize = 0;
    while i < values.len()
        invariant
            values@.len() <= dpi::MAX_STAGES,
            i <= values@.len(),
            stages@.len() == i,
            forall|k: int|
                0 <= k < i ==> #[trigger] stages@[k] == (DpiStage {
                    index: k as u8,
                    dpi_x: values@[k],
                    dpi_y: values@[k],
                }),
        decreases values@.len() - i,
    {
        stages.push(DpiStage { index: i as u8, dpi_x: values[i], dpi_y: values[i] });
        i = i + 1;
    }
    Some(stages)
}

/// After failed attempt `attempt` (counted from 0) of `max_attempts`,
/// whether to try again.
pub fn should_retry(attempt: u32, max_attempts: u32) -> (r: bool)
    ensures
        r == (attempt + 1 < max_attempts),
{
    attempt < max_attempts && attempt + 1 < max_attempts
}

/// The line reporting a retry: `retrying <label> (attempt <n>/<max>): <err>`,
/// `n` counted from 1.
pub open spec fn retry_line(attempt: nat, max_attempts: nat, label: Seq<char>, err: Seq<char>) -> Seq<char> {
    "retrying "@ + label + " (attempt "@ + decimal(attempt + 1) + "/"@ + decimal(max_attempts) + "): "@
        + err
}

/// After attempt `attempt` (counted from 0) of `max_attempts` at `label`
/// failed with `err`: the line to report before trying again, or `None`
/// where that was the last attempt and `err` is the outcome.
pub fn retry_note(attempt: u32, max_attempts: u32, label: &str, err: &str) -> (r: Option<String>)
    ensures
        r is Some <==> attempt + 1 < max_attempts,
        r matches Some(line) ==> line@ == retry_line(attempt as nat, max_attempts as nat, label@, err@),
{
    if !should_retry(attempt, max_attempts) {
        return None;
    }
    let mut out: Vec<char> = Vec::new();
    push_str(&mut out, "retrying ");
    push_str(&mut out, label);
    push_str(&mut out, " (attempt ");
    push_decimal(&mut out, attempt as u64 + 1);
    push_str(&mut out, "/");
    push_decimal(&mut out, max_attempts as u64);
    push_str(&mut out, "): ");
    push_str(&mut out, err);
    assert(out@ =~= retry_line(attempt as nat, max_attempts as nat, label@, err@));
    Some(string_from_chars(&out))
}

/// Leaving out what a device cannot take changes nothing that is sent to
/// it: the plan for the supported part of settings `s` is the plan for `s`.
pub proof fn lemma_plan_of_supported(def: DeviceDef, s: ProfileSettingsView)
    ensures
        apply_plan(def, supported_settings(s, def.capabilities)) == apply_plan(def, s),
{
    assert(apply_plan(def, supported_settings(s, def.capabilities)) =~= apply_plan(def, s));
}

/// The LEDs that the `effect` command sets: the one given with `--led`, else
/// every LED region of the device (the logo LED when it names none).
pub open spec fn effect_targets(def: DeviceDef, led: Option<u8>) -> Seq<u8> {
    match led {
        Some(l) => seq![l],
        None => all_leds(def),
    }
}

/// The LEDs that the `effect` command sets.
pub fn effect_leds(def: &DeviceDef, led: Option<u8>) -> (r: Vec<u8>)
    ensures
        r@ == effect_targets(*def, led),
{
    match led {
        Some(l) => {
            let v = vec![l];
            assert(v@ =~= seq![l]);
            v
        },
        None => {
            let mut v: Vec<u8> = Vec::new();
            if def.led_regions.len() == 0 {
                v.push(led_id::LOGO);
                assert(v@ =~= seq![led_id::LOGO]);
            } else {
                let ghost leds = all_leds(*def);
                let mut i: usize = 0;
                while i < def.led_regions.len()
                    invariant
                        leds == def.led_regions@.map_values(|r: crate::registry::LedRegion| r.id),
                        i <= def.led_regions@.len(),
                        v@ == leds.take(i as int),
                    decreases def.led_regions@.len() - i,
                {
                    v.push(def.led_regions[i].id);
                    assert(v@ =~= leds.take(i + 1));
                    i = i + 1;
                }
                assert(leds.take(def.led_regions@.len() as int) =~= leds);
            }
            v
        },
    }
}

} // verus!
