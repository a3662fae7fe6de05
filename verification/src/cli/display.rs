//! The text of the `list` and `info` commands: the attached devices with
//! their names, types and capabilities, and a device's definition with its
//! serial number and firmware version.
use vstd::prelude::*;

use crate::cli::detect::{capability_names, get_capabilities, pid_text, push_pid};
use crate::cli::screen::{brightness_percentage_text, to_brightness_percentage};
use crate::commands::dpi::DpiStage;
use crate::registry::{first_with_pid, DeviceDef, DeviceType, LedRegion, Registry};
use crate::text::{
    bool_text, byte_text, decimal, push_bool, push_byte_hex, push_chars, push_decimal,
    push_repeat, push_str, repeat_char, string_from_chars,
};

verus! {

/// `s` padded with spaces on the right to `w` columns (never cut).
pub open spec fn pad_right(s: Seq<char>, w: nat) -> Seq<char> {
    s + repeat_char(
        ' ',
        if s.len() < w {
            (w - s.len()) as nat
        } else {
            0
        },
    )
}

fn push_padded(out: &mut Vec<char>, s: &Vec<char>, w: usize)
    ensures
        final(out)@ == old(out)@ + pad_right(s@, w as nat),
{
    let ghost start = out@;
    push_chars(out, s);
    let pad = if s.len() < w {
        w - s.len()
    } else {
        0
    };
    push_repeat(out, ' ', pad);
    assert(final(out)@ =~= start + pad_right(s@, w as nat));
}

/// `parts` joined by `sep`.
pub open spec fn joined_by(parts: Seq<Seq<char>>, sep: Seq<char>) -> Seq<char>
    decreases parts.len(),
{
    if parts.len() == 0 {
        Seq::empty()
    } else if parts.len() == 1 {
        parts[0]
    } else {
        joined_by(parts.drop_last(), sep) + sep + parts.last()
    }
}

/// The lowercase type name that `list` shows.
pub open spec fn type_label(t: DeviceType) -> Seq<char> {
    match t {
        DeviceType::Mouse => "mouse"@,
        DeviceType::Keyboard => "keyboard"@,
    }
}

/// The type name that `info` shows.
pub open spec fn device_type_text(t: DeviceType) -> Seq<char> {
    match t {
        DeviceType::Mouse => "Mouse"@,
        DeviceType::Keyboard => "Keyboard"@,
    }
}

/// The rest of the line of `list` for a device the registry has: its name,
/// type and capabilities.
pub open spec fn known_device_text(d: DeviceDef) -> Seq<char> {
    pad_right(d.name@, 30) + seq![' ', ' '] + type_label(d.device_type) + seq![' ', '['] + joined_by(
        capability_names(d.capabilities),
        seq![',', ' '],
    ) + seq![']', '\n']
}

/// The rest of the line of `list` for a device the registry lacks.
pub open spec fn unknown_device_text() -> Seq<char> {
    pad_right(seq!['?'], 30) + "  (unknown — not in registry)"@ + seq!['\n']
}

/// The line of `list` for an attached device with product id `pid`: the id,
/// the name, the type and the capabilities when the registry has it, else
/// a question mark and a note.
pub open spec fn device_line(pid: u16, defs: Seq<DeviceDef>) -> Seq<char> {
    pad_right(pid_text(pid), 10) + seq![' ', ' '] + match first_with_pid(defs, pid) {
        Some(i) => known_device_text(defs[i]),
        None => unknown_device_text(),
    }
}

/// The lines of `list` for the attached devices `pids`.
pub open spec fn device_lines(pids: Seq<u16>, defs: Seq<DeviceDef>) -> Seq<char>
    decreases pids.len(),
{
    if pids.len() == 0 {
        Seq::empty()
    } else {
        device_lines(pids.drop_last(), defs) + device_line(pids.last(), defs)
    }
}

/// The lines of `list` for the devices the registry knows.
pub open spec fn registry_lines(defs: Seq<DeviceDef>) -> Seq<char>
    decreases defs.len(),
{
    if defs.len() == 0 {
        Seq::empty()
    } else {
        registry_lines(defs.drop_last()) + seq![' ', ' '] + pid_text(defs.last().usb_pid) + seq![
            ' ',
            ' ',
        ] + defs.last().name@ + seq!['\n']
    }
}

/// What `list` prints: a table of the supported attached devices; when
/// there is none, why (an unsupported Razer device, or none at all) and the
/// devices the registry knows.
pub open spec fn list_text(pids: Seq<u16>, razer_pid: Option<u16>, defs: Seq<DeviceDef>) -> Seq<
    char,
> {
    if pids.len() == 0 {
        (match razer_pid {
            Some(p) => "Razer device connected but PID "@ + pid_text(p) + " is not supported."@,
            None => "no Razer device connected. See if any HID-compliant mice are visible in device manager"@,
        }) + seq!['\n'] + seq!['\n'] + "Supported registry devices:"@ + seq!['\n'] + registry_lines(
            defs,
        )
    } else {
        pad_right("PID"@, 10) + seq![' ', ' '] + pad_right("Name"@, 30) + "  Status"@ + seq!['\n']
            + repeat_char('-', 60) + seq!['\n'] + device_lines(pids, defs)
    }
}

fn push_joined_caps(out: &mut Vec<char>, def: &DeviceDef)
    ensures
        final(out)@ == old(out)@ + joined_by(
            capability_names(def.capabilities),
            seq![',', ' '],
        ),
{
    let ghost start = out@;
    let caps = get_capabilities(def);
    let ghost names = caps@.map_values(|s: &str| s@);
    let mut i: usize = 0;
    while i < caps.len()
        invariant
            i <= caps@.len(),
            names == caps@.map_values(|s: &str| s@),
            names == capability_names(def.capabilities),
            out@ == start + joined_by(names.take(i as int), seq![',', ' ']),
        decreases caps@.len() - i,
    {
        assert(names.take(i + 1).drop_last() =~= names.take(i as int));
        if i > 0 {
            out.push(',');
            out.push(' ');
        }
        push_str(out, caps[i]);
        proof {
            if i == 0 {
                assert(names.take(1) =~= seq![names[0]]);
            }
        }
        assert(out@ =~= start + joined_by(names.take(i + 1), seq![',', ' ']));
        i = i + 1;
    }
    assert(names.take(caps@.len() as int) =~= names);
}

fn push_known_device(out: &mut Vec<char>, def: &DeviceDef)
    ensures
        final(out)@ == old(out)@ + known_device_text(*def),
{
    let ghost s0 = out@;
    let mut name: Vec<char> = Vec::new();
    push_str(&mut name, def.name.as_str());
    push_padded(out, &name, 30);
    out.push(' ');
    out.push(' ');
    let ghost s1 = out@;
    match def.device_type {
        DeviceType::Mouse => push_str(out, "mouse"),
        DeviceType::Keyboard => push_str(out, "keyboard"),
    }
    let ghost s2 = out@;
    out.push(' ');
    out.push('[');
    let ghost s3 = out@;
    push_joined_caps(out, def);
    let ghost s4 = out@;
    out.push(']');
    out.push('\n');
    assert(s1 =~= s0 + (pad_right(def.name@, 30) + seq![' ', ' ']));
    assert(s2 == s1 + type_label(def.device_type));
    assert(s3 =~= s2 + seq![' ', '[']);
    assert(out@ =~= s4 + seq![']', '\n']);
    assert(out@ =~= s0 + known_device_text(*def));
}

fn push_device_line(out: &mut Vec<char>, pid: u16, registry: &Registry)
    ensures
        final(out)@ == old(out)@ + device_line(pid, registry@),
{
    let ghost start = out@;
    let mut id: Vec<char> = Vec::new();
    push_pid(&mut id, pid);
    push_padded(out, &id, 10);
    out.push(' ');
    out.push(' ');
    let ghost head = out@;
    assert(head =~= start + (pad_right(pid_text(pid), 10) + seq![' ', ' ']));
    match registry.find_by_pid(pid) {
        Some(def) => {
            push_known_device(out, def);
        },
        None => {
            let q: Vec<char> = vec!['?'];
            push_padded(out, &q, 30);
            push_str(out, "  (unknown — not in registry)");
            out.push('\n');
            assert(out@ =~= head + unknown_device_text());
        },
    }
    assert(out@ =~= start + device_line(pid, registry@));
}

/// The text `list` prints for the supported attached devices `pids` and
/// the last Razer product id seen, `razer_pid`.
pub fn list_text_for(pids: &Vec<u16>, razer_pid: Option<u16>, registry: &Registry) -> (s: String)
    ensures
        s@ == list_text(pids@, razer_pid, registry@),
{
    let mut out: Vec<char> = Vec::new();
    if pids.len() == 0 {
        match razer_pid {
            Some(p) => {
                push_str(&mut out, "Razer device connected but PID ");
                push_pid(&mut out, p);
                push_str(&mut out, " is not supported.");
            },
            None => {
                push_str(
                    &mut out,
                    "no Razer device connected. See if any HID-compliant mice are visible in device manager",
                );
            },
        }
        out.push('\n');
        out.push('\n');
        push_str(&mut out, "Supported registry devices:");
        out.push('\n');
        let ghost head = out@;
        let defs = registry.devices();
        let mut i: usize = 0;
        while i < defs.len()
            invariant
                i <= defs@.len(),
                defs@ == registry@,
                out@ == head + registry_lines(defs@.take(i as int)),
            decreases defs@.len() - i,
        {
            assert(defs@.take(i + 1).drop_last() =~= defs@.take(i as int));
            out.push(' ');
            out.push(' ');
            push_pid(&mut out, defs[i].usb_pid);
            out.push(' ');
            out.push(' ');
            push_str(&mut out, defs[i].name.as_str());
            out.push('\n');
            assert(out@ =~= head + registry_lines(defs@.take(i + 1)));
            i = i + 1;
        }
        assert(defs@.take(defs@.len() as int) =~= defs@);
        assert(out@ =~= list_text(pids@, razer_pid, registry@));
    } else {
        let mut title: Vec<char> = Vec::new();
        push_str(&mut title, "PID");
        push_padded(&mut out, &title, 10);
        out.push(' ');
        out.push(' ');
        let mut name: Vec<char> = Vec::new();
        push_str(&mut name, "Name");
        push_padded(&mut out, &name, 30);
        push_str(&mut out, "  Status");
        out.push('\n');
        push_repeat(&mut out, '-', 60);
        out.push('\n');
        let ghost head = out@;
        let mut i: usize = 0;
        while i < pids.len()
            invariant
                i <= pids@.len(),
                out@ == head + device_lines(pids@.take(i as int), registry@),
            decreases pids@.len() - i,
        {
            assert(pids@.take(i + 1).drop_last() =~= pids@.take(i as int));
            push_device_line(&mut out, pids[i], registry);
            assert(out@ =~= head + device_lines(pids@.take(i + 1), registry@));
            i = i + 1;
        }
        assert(pids@.take(pids@.len() as int) =~= pids@);
        assert(out@ =~= list_text(pids@, razer_pid, registry@));
    }
    string_from_chars(&out)
}

/// A DPI bound as `info` shows it: the number, or `?`.
pub open spec fn bound_text(v: Option<int>) -> Seq<char> {
    match v {
        Some(n) => decimal(n as nat),
        None => seq!['?'],
    }
}

/// The LED regions as `info` shows them: `name (0xid)` joined by `, `, or
/// `(none)`.
pub open spec fn regions_text(regions: Seq<LedRegion>) -> Seq<char> {
    if regions.len() == 0 {
        "(none)"@
    } else {
        joined_by(
            regions.map_values(|r: LedRegion| r.name@ + seq![' ', '('] + byte_text(r.id) + seq![')']),
            seq![',', ' '],
        )
    }
}

/// The first lines of `info`: name, product id, type.
pub open spec fn identity_text(def: DeviceDef) -> Seq<char> {
    "Device: "@ + def.name@ + seq!['\n'] + "  PID:            "@ + pid_text(def.usb_pid) + seq!['\n']
        + "  Type:           "@ + device_type_text(def.device_type) + seq!['\n']
}

/// The protocol lines of `info`: transaction id and wait.
pub open spec fn protocol_text(def: DeviceDef) -> Seq<char> {
    "  Transaction ID: "@ + byte_text(def.transaction_id) + seq!['\n'] + "  Wait:           "@
        + decimal(def.wait_us as nat) + " us"@ + seq!['\n']
}

/// The DPI range line of `info`.
pub open spec fn range_text(def: DeviceDef) -> Seq<char> {
    "  DPI range:      "@ + bound_text(
        match def.dpi_min {
            Some(v) => Some(v as int),
            None => None,
        },
    ) + seq!['-'] + bound_text(
        match def.dpi_max {
            Some(v) => Some(v as int),
            None => None,
        },
    ) + seq!['\n']
}

/// A label and then `true` or `false`.
pub open spec fn flag_text(label: Seq<char>, b: bool) -> Seq<char> {
    label + bool_text(b)
}

/// The capabilities line of `info`.
pub open spec fn capabilities_text(def: DeviceDef) -> Seq<char> {
    flag_text("  Capabilities:   lighting="@, def.capabilities.lighting) + flag_text(
        ", dpi="@,
        def.capabilities.dpi,
    ) + flag_text(", polling="@, def.capabilities.polling_rate) + flag_text(
        ", battery="@,
        def.capabilities.battery,
    ) + seq!['\n']
}

/// The lines of `info` that come from the definition: name, product id,
/// type, transaction id, wait, DPI range, capabilities, LED regions.
pub open spec fn definition_text(def: DeviceDef) -> Seq<char> {
    identity_text(def) + protocol_text(def) + range_text(def) + capabilities_text(def)
        + "  LED regions:    "@ + regions_text(def.led_regions@) + seq!['\n']
}

fn push_regions(out: &mut Vec<char>, regions: &Vec<LedRegion>)
    ensures
        final(out)@ == old(out)@ + regions_text(regions@),
{
    let ghost start = out@;
    if regions.len() == 0 {
        push_str(out, "(none)");
        return;
    }
    let ghost parts = regions@.map_values(
        |r: LedRegion| r.name@ + seq![' ', '('] + byte_text(r.id) + seq![')'],
    );
    let mut i: usize = 0;
    while i < regions.len()
        invariant
            i <= regions@.len(),
            parts == regions@.map_values(
                |r: LedRegion| r.name@ + seq![' ', '('] + byte_text(r.id) + seq![')'],
            ),
            out@ == start + joined_by(parts.take(i as int), seq![',', ' ']),
        decreases regions@.len() - i,
    {
        assert(parts.take(i + 1).drop_last() =~= parts.take(i as int));
        if i > 0 {
            out.push(',');
            out.push(' ');
        }
        let ghost before = out@;
        push_str(out, regions[i].name.as_str());
        out.push(' ');
        out.push('(');
        push_byte_hex(out, regions[i].id);
        out.push(')');
        assert(out@ =~= before + parts[i as int]);
        proof {
            if i == 0 {
                assert(parts.take(1) =~= seq![parts[0]]);
            }
        }
        assert(out@ =~= start + joined_by(parts.take(i + 1), seq![',', ' ']));
        i = i + 1;
    }
    assert(parts.take(regions@.len() as int) =~= parts);
}

fn push_bound(out: &mut Vec<char>, v: Option<u32>)
    ensures
        final(out)@ == old(out)@ + bound_text(
            match v {
                Some(n) => Some(n as int),
                None => None,
            },
        ),
{
    match v {
        Some(n) => push_decimal(out, n as u64),
        None => out.push('?'),
    }
}

fn push_identity(out: &mut Vec<char>, def: &DeviceDef)
    ensures
        final(out)@ == old(out)@ + identity_text(*def),
{
    let ghost start = out@;
    push_str(out, "Device: ");
    push_str(out, def.name.as_str());
    out.push('\n');
    push_str(out, "  PID:            ");
    push_pid(out, def.usb_pid);
    out.push('\n');
    push_str(out, "  Type:           ");
    match def.device_type {
        DeviceType::Mouse => push_str(out, "Mouse"),
        DeviceType::Keyboard => push_str(out, "Keyboard"),
    }
    out.push('\n');
    assert(out@ =~= start + identity_text(*def));
}

fn push_protocol(out: &mut Vec<char>, def: &DeviceDef)
    ensures
        final(out)@ == old(out)@ + protocol_text(*def),
{
    let ghost start = out@;
    push_str(out, "  Transaction ID: ");
    push_byte_hex(out, def.transaction_id);
    out.push('\n');
    push_str(out, "  Wait:           ");
    push_decimal(out, def.wait_us as u64);
    push_str(out, " us");
    out.push('\n');
    assert(out@ =~= start + protocol_text(*def));
}

fn push_range(out: &mut Vec<char>, def: &DeviceDef)
    ensures
        final(out)@ == old(out)@ + range_text(*def),
{
    let ghost start = out@;
    push_str(out, "  DPI range:      ");
    push_bound(
        out,
        match def.dpi_min {
            Some(v) => Some(v as u32),
            None => None,
        },
    );
    out.push('-');
    push_bound(out, def.dpi_max);
    out.push('\n');
    assert(out@ =~= start + range_text(*def));
}

fn push_flag(out: &mut Vec<char>, label: &str, b: bool)
    ensures
        final(out)@ == old(out)@ + flag_text(label@, b),
{
    let ghost start = out@;
    push_str(out, label);
    push_bool(out, b);
    assert(out@ =~= start + flag_text(label@, b));
}

fn push_capabilities(out: &mut Vec<char>, def: &DeviceDef)
    ensures
        final(out)@ == old(out)@ + capabilities_text(*def),
{
    let ghost s0 = out@;
    push_flag(out, "  Capabilities:   lighting=", def.capabilities.lighting);
    let ghost s1 = out@;
    push_flag(out, ", dpi=", def.capabilities.dpi);
    let ghost s2 = out@;
    push_flag(out, ", polling=", def.capabilities.polling_rate);
    let ghost s3 = out@;
    push_flag(out, ", battery=", def.capabilities.battery);
    let ghost s4 = out@;
    out.push('\n');
    let ghost f1 = flag_text("  Capabilities:   lighting="@, def.capabilities.lighting);
    let ghost f2 = flag_text(", dpi="@, def.capabilities.dpi);
    let ghost f3 = flag_text(", polling="@, def.capabilities.polling_rate);
    let ghost f4 = flag_text(", battery="@, def.capabilities.battery);
    assert(s1 == s0 + f1);
    assert(s2 == s1 + f2);
    assert(s3 == s2 + f3);
    assert(s4 == s3 + f4);
    assert(out@ =~= s0 + (f1 + f2 + f3 + f4 + seq!['\n']));
}

fn push_definition(out: &mut Vec<char>, def: &DeviceDef)
    ensures
        final(out)@ == old(out)@ + definition_text(*def),
{
    let ghost start = out@;
    push_identity(out, def);
    push_protocol(out, def);
    push_range(out, def);
    push_capabilities(out, def);
    push_str(out, "  LED regions:    ");
    push_regions(out, &def.led_regions);
    out.push('\n');
    assert(out@ =~= start + definition_text(*def));
}

/// The serial number line of `info`.
pub open spec fn serial_text(serial: Result<Seq<char>, Seq<char>>) -> Seq<char> {
    "  Serial:         "@ + (match serial {
        Ok(s) => s,
        Err(e) => "(read failed: "@ + e + seq![')'],
    }) + seq!['\n']
}

/// The firmware version line of `info`.
pub open spec fn firmware_text(firmware: Result<(u8, u8), Seq<char>>) -> Seq<char> {
    "  Firmware:       "@ + (match firmware {
        Ok((major, minor)) => seq!['v'] + decimal(major as nat) + seq!['.'] + decimal(minor as nat),
        Err(e) => "(read failed: "@ + e + seq![')'],
    }) + seq!['\n']
}

fn push_serial(out: &mut Vec<char>, serial: &Result<String, String>)
    ensures
        final(out)@ == old(out)@ + serial_text(
            match serial {
                Ok(v) => Ok(v@),
                Err(e) => Err(e@),
            },
        ),
{
    let ghost start = out@;
    push_str(out, "  Serial:         ");
    match serial {
        Ok(v) => push_str(out, v.as_str()),
        Err(e) => {
            push_str(out, "(read failed: ");
            push_str(out, e.as_str());
            out.push(')');
        },
    }
    out.push('\n');
    assert(out@ =~= start + serial_text(
        match serial {
            Ok(v) => Ok(v@),
            Err(e) => Err(e@),
        },
    ));
}

fn push_firmware(out: &mut Vec<char>, firmware: &Result<(u8, u8), String>)
    ensures
        final(out)@ == old(out)@ + firmware_text(
            match firmware {
                Ok(v) => Ok(*v),
                Err(e) => Err(e@),
            },
        ),
{
    let ghost start = out@;
    push_str(out, "  Firmware:       ");
    match firmware {
        Ok((major, minor)) => {
            out.push('v');
            push_decimal(out, *major as u64);
            out.push('.');
            push_decimal(out, *minor as u64);
        },
        Err(e) => {
            push_str(out, "(read failed: ");
            push_str(out, e.as_str());
            out.push(')');
        },
    }
    out.push('\n');
    assert(out@ =~= start + firmware_text(
        match firmware {
            Ok(v) => Ok(*v),
            Err(e) => Err(e@),
        },
    ));
}

/// What `info` prints for device `def`, with its serial number and firmware
/// version as read (`Err` holding the text of why a read failed).
pub fn info_text(def: &DeviceDef, serial: &Result<String, String>, firmware: &Result<(u8, u8), String>) -> (s:
    String)
    ensures
        s@ == definition_text(*def) + serial_text(
            match serial {
                Ok(v) => Ok(v@),
                Err(e) => Err(e@),
            },
        ) + firmware_text(
            match firmware {
                Ok(v) => Ok(*v),
                Err(e) => Err(e@),
            },
        ),
{
    let mut out: Vec<char> = Vec::new();
    push_definition(&mut out, def);
    push_serial(&mut out, serial);
    push_firmware(&mut out, firmware);
    string_from_chars(&out)
}

/// A battery reading: the charge in percent and whether it is charging.
#[derive(Debug, Clone, Copy, PartialEq, Eq, Structural)]
pub struct Battery {
    pub level: u8,
    pub charging: bool,
}

/// The result of a command, as the command line reports it.
#[derive(Debug, Clone, Copy, PartialEq, Eq)]
pub enum Outcome {
    /// The battery was read.
    Battery(Battery),
    /// The DPI was read.
    Dpi { x: u16, y: u16 },
    /// The DPI was set.
    DpiSet { x: u16, y: u16 },
    /// A static color was set on an LED.
    ColorSet { rgb: [u8; 3], led: u8 },
    /// An LED's brightness was read.
    Brightness { value: u8, led: u8 },
    /// An LED's brightness was set.
    BrightnessSet { value: u8, led: u8 },
    /// The polling rate was read.
    Polling { hz: u16 },
    /// The polling rate was set.
    PollingSet { hz: u16 },
}

/// `[r, g, b]`, as the command line shows a color.
pub open spec fn rgb_list_text(c: [u8; 3]) -> Seq<char> {
    seq!['['] + decimal(c[0] as nat) + seq![',', ' '] + decimal(c[1] as nat) + seq![',', ' ']
        + decimal(c[2] as nat) + seq![']']
}

/// `<value>/255 (<percent> %) on LED <id>`.
pub open spec fn brightness_report(value: u8, led: u8) -> Seq<char> {
    decimal(value as nat) + "/255 ("@ + brightness_percentage_text(value) + ") on LED "@ + byte_text(
        led,
    )
}

/// What the command line reports of outcome `o`.
pub open spec fn outcome_body(o: Outcome) -> Seq<char> {
    match o {
        Outcome::Battery(b) => "battery "@ + decimal(b.level as nat) + seq!['%'] + if b.charging {
            " (charging)"@
        } else {
            Seq::empty()
        },
        Outcome::Dpi { x, y } => "DPI "@ + decimal(x as nat) + seq!['x'] + decimal(y as nat),
        Outcome::DpiSet { x, y } => "set DPI "@ + decimal(x as nat) + seq!['x'] + decimal(y as nat),
        Outcome::ColorSet { rgb, led } => "set static color "@ + rgb_list_text(rgb) + " on LED "@
            + byte_text(led),
        Outcome::Brightness { value, led } => "brightness "@ + brightness_report(value, led),
        Outcome::BrightnessSet { value, led } => "set brightness "@ + brightness_report(value, led),
        Outcome::Polling { hz } => "polling at "@ + decimal(hz as nat) + " Hz"@,
        Outcome::PollingSet { hz } => "set polling rate "@ + decimal(hz as nat) + " Hz"@,
    }
}

/// What the command line prints after a command on device `name`, without
/// the line break.
pub open spec fn outcome_line(name: Seq<char>, o: Outcome) -> Seq<char> {
    name + seq![':', ' '] + outcome_body(o)
}

fn push_rgb_list(out: &mut Vec<char>, c: [u8; 3])
    ensures
        final(out)@ == old(out)@ + rgb_list_text(c),
{
    let ghost s0 = out@;
    out.push('[');
    push_decimal(out, c[0] as u64);
    let ghost s1 = out@;
    out.push(',');
    out.push(' ');
    push_decimal(out, c[1] as u64);
    let ghost s2 = out@;
    out.push(',');
    out.push(' ');
    push_decimal(out, c[2] as u64);
    out.push(']');
    assert(s1 =~= s0 + seq!['['] + decimal(c[0] as nat));
    assert(s2 =~= s1 + seq![',', ' '] + decimal(c[1] as nat));
    assert(out@ =~= s0 + rgb_list_text(c));
}

fn push_brightness_report(out: &mut Vec<char>, value: u8, led: u8)
    ensures
        final(out)@ == old(out)@ + brightness_report(value, led),
{
    let ghost s0 = out@;
    push_decimal(out, value as u64);
    push_str(out, "/255 (");
    let ghost s1 = out@;
    let pct = to_brightness_percentage(value);
    push_str(out, pct.as_str());
    let ghost s2 = out@;
    push_str(out, ") on LED ");
    push_byte_hex(out, led);
    assert(s1 =~= s0 + decimal(value as nat) + "/255 ("@);
    assert(out@ =~= s0 + brightness_report(value, led));
}

fn push_outcome(out: &mut Vec<char>, o: &Outcome)
    ensures
        final(out)@ == old(out)@ + outcome_body(*o),
{
    let ghost s0 = out@;
    match *o {
        Outcome::Battery(b) => {
            push_str(out, "battery ");
            push_decimal(out, b.level as u64);
            out.push('%');
            if b.charging {
                push_str(out, " (charging)");
            }
        },
        Outcome::Dpi { x, y } => {
            push_str(out, "DPI ");
            push_decimal(out, x as u64);
            out.push('x');
            push_decimal(out, y as u64);
        },
        Outcome::DpiSet { x, y } => {
            push_str(out, "set DPI ");
            push_decimal(out, x as u64);
            out.push('x');
            push_decimal(out, y as u64);
        },
        Outcome::ColorSet { rgb, led } => {
            push_str(out, "set static color ");
            push_rgb_list(out, rgb);
            push_str(out, " on LED ");
            push_byte_hex(out, led);
        },
        Outcome::Brightness { value, led } => {
            push_str(out, "brightness ");
            push_brightness_report(out, value, led);
        },
        Outcome::BrightnessSet { value, led } => {
            push_str(out, "set brightness ");
            push_brightness_report(out, value, led);
        },
        Outcome::Polling { hz } => {
            push_str(out, "polling at ");
            push_decimal(out, hz as u64);
            push_str(out, " Hz");
        },
        Outcome::PollingSet { hz } => {
            push_str(out, "set polling rate ");
            push_decimal(out, hz as u64);
            push_str(out, " Hz");
        },
    }
    assert(out@ =~= s0 + outcome_body(*o));
}

/// What the command line prints after command outcome `o` on device `name`
/// (without the line break).
pub fn outcome_text(name: &str, o: &Outcome) -> (s: String)
    ensures
        s@ == outcome_line(name@, *o),
{
    let mut out: Vec<char> = Vec::new();
    push_str(&mut out, name);
    out.push(':');
    out.push(' ');
    let ghost head = out@;
    push_outcome(&mut out, o);
    assert(out@ =~= outcome_line(name@, *o));
    string_from_chars(&out)
}

/// The lines `dpi-stages` prints after setting stages `stages` on device
/// `name`: a summary, then each stage, the active one marked.
pub open spec fn stages_lines(name: Seq<char>, active: u8, stages: Seq<DpiStage>) -> Seq<char> {
    name + ": set "@ + decimal(stages.len()) + " DPI stage(s), active stage "@ + decimal(
        active as nat,
    ) + seq!['\n'] + stage_lines(active, stages)
}

/// The line of each stage: its index, its X and Y DPI, and a mark on the
/// stage at place `active`.
pub open spec fn stage_lines(active: u8, stages: Seq<DpiStage>) -> Seq<char>
    decreases stages.len(),
{
    if stages.len() == 0 {
        Seq::empty()
    } else {
        let i = stages.len() - 1;
        let s = stages.last();
        stage_lines(active, stages.drop_last()) + "  stage "@ + decimal(s.index as nat) + seq![
            ':',
            ' ',
        ] + decimal(s.dpi_x as nat) + seq!['x'] + decimal(s.dpi_y as nat) + (if i as u8 == active {
            " <== active"@
        } else {
            Seq::empty()
        }) + seq!['\n']
    }
}

/// What `dpi-stages` prints after setting stages `stages` on device `name`.
pub fn stages_text(name: &str, active: u8, stages: &[DpiStage]) -> (s: String)
    ensures
        s@ == stages_lines(name@, active, stages@),
{
    let mut out: Vec<char> = Vec::new();
    push_str(&mut out, name);
    push_str(&mut out, ": set ");
    push_decimal(&mut out, stages.len() as u64);
    push_str(&mut out, " DPI stage(s), active stage ");
    push_decimal(&mut out, active as u64);
    out.push('\n');
    let ghost head = out@;
    assert(head =~= name@ + ": set "@ + decimal(stages@.len()) + " DPI stage(s), active stage "@
        + decimal(active as nat) + seq!['\n']);
    let mut i: usize = 0;
    while i < stages.len()
        invariant
            i <= stages@.len(),
            out@ == head + stage_lines(active, stages@.take(i as int)),
        decreases stages@.len() - i,
    {
        assert(stages@.take(i + 1).drop_last() =~= stages@.take(i as int));
        let ghost before = out@;
        let s = stages[i];
        push_str(&mut out, "  stage ");
        push_decimal(&mut out, s.index as u64);
        out.push(':');
        out.push(' ');
        let ghost mid = out@;
        push_decimal(&mut out, s.dpi_x as u64);
        out.push('x');
        push_decimal(&mut out, s.dpi_y as u64);
        let ghost late = out@;
        #[verifier::truncate]
        let at = i as u8;
        if at == active {
            push_str(&mut out, " <== active");
        }
        out.push('\n');
        assert(mid =~= before + "  stage "@ + decimal(s.index as nat) + seq![':', ' ']);
        assert(late =~= mid + decimal(s.dpi_x as nat) + seq!['x'] + decimal(s.dpi_y as nat));
        assert(out@ =~= head + stage_lines(active, stages@.take(i + 1)));
        i = i + 1;
    }
    assert(stages@.take(stages@.len() as int) =~= stages@);
    string_from_chars(&out)
}

} // verus!
