//! Device registry: the model of a device definition (PID, protocol
//! parameters, capabilities, LED regions) and a PID-keyed collection of them.
//!
//! Definitions are written as TOML documents; reading those documents is the
//! application's part, and the hex-string fields they hold are parsed here.
use vstd::prelude::*;

use vstd::string::StringSliceAdditionalSpecFns;

use crate::text::str_eq;
use crate::number::{number_value, parse_number_from, skip_leading_pair, trim_hex_prefixes, IntErrorKind};

verus! {

/// Default transaction id when a device omits it (older devices).
pub const DEFAULT_TRANSACTION_ID: u8 = 0xFF;

/// Default send->receive wait in microseconds.
pub const DEFAULT_WAIT_US: u32 = 600;

/// Physical class of a device.
#[derive(Debug, Clone, Copy, PartialEq, Eq, Structural)]
pub enum DeviceType {
    Mouse,
    Keyboard,
}

/// Feature flags advertised by a device.
#[derive(Debug, Clone, PartialEq, Eq, Structural)]
pub struct Capabilities {
    pub lighting: bool,
    pub dpi: bool,
    /// Whether the device firmware implements the DPI-stages command.
    pub dpi_stages: bool,
    pub polling_rate: bool,
    pub battery: bool,
    /// Whether the device persists LED/DPI writes to onboard flash when the
    /// command carries the VARSTORE flag. Off unless a definition opts in.
    pub onboard: bool,
}

impl Default for Capabilities {
    /// No capability.
    fn default() -> (c: Self)
        ensures
            !c.lighting && !c.dpi && !c.dpi_stages && !c.polling_rate && !c.battery && !c.onboard,
    {
        Capabilities {
            lighting: false,
            dpi: false,
            dpi_stages: false,
            polling_rate: false,
            battery: false,
            onboard: false,
        }
    }
}

/// One named LED region (e.g. logo, scroll wheel, backlight).
#[derive(Debug, Clone, PartialEq, Eq)]
pub struct LedRegion {
    /// Human-readable name.
    pub name: String,
    /// LED id byte used in lighting commands.
    pub id: u8,
}

/// A lighting effect that a profile or the interactive menu can select.
#[derive(Debug, Clone, Copy, PartialEq, Eq, Structural)]
pub enum Effect {
    Off,
    Static,
    Breathing,
    Spectrum,
    Wave,
    Reactive,
    Starlight,
    Custom,
}

/// The effect that a command-line effect name selects: `static`,
/// `breathing`, `spectrum`, `wave`, `reactive` or `none`.
pub open spec fn effect_named(name: Seq<char>) -> Option<Effect> {
    if name == "static"@ {
        Some(Effect::Static)
    } else if name == "breathing"@ {
        Some(Effect::Breathing)
    } else if name == "spectrum"@ {
        Some(Effect::Spectrum)
    } else if name == "wave"@ {
        Some(Effect::Wave)
    } else if name == "reactive"@ {
        Some(Effect::Reactive)
    } else if name == "none"@ {
        Some(Effect::Off)
    } else {
        None
    }
}

impl Effect {
    /// Parse a command-line effect name; `None` for an unknown name.
    pub fn parse(name: &str) -> (r: Option<Effect>)
        ensures
            r == effect_named(name@),
    {
        if str_eq(name, "static") {
            Some(Effect::Static)
        } else if str_eq(name, "breathing") {
            Some(Effect::Breathing)
        } else if str_eq(name, "spectrum") {
            Some(Effect::Spectrum)
        } else if str_eq(name, "wave") {
            Some(Effect::Wave)
        } else if str_eq(name, "reactive") {
            Some(Effect::Reactive)
        } else if str_eq(name, "none") {
            Some(Effect::Off)
        } else {
            None
        }
    }
}

/// A single device definition.
#[derive(Debug, Clone, PartialEq, Eq)]
pub struct DeviceDef {
    /// Marketing name.
    pub name: String,
    /// USB product id (the Razer vendor id is always 0x1532).
    pub usb_pid: u16,
    /// Mouse or keyboard.
    pub device_type: DeviceType,
    /// Per-device transaction id byte.
    pub transaction_id: u8,
    /// Send->receive wait interval in microseconds.
    pub wait_us: u32,
    /// Feature flags.
    pub capabilities: Capabilities,
    /// Named LED regions.
    pub led_regions: Vec<LedRegion>,
    /// Matrix dimensions `[rows, cols]`, if the device is addressable-RGB.
    pub matrix_dims: Option<[u16; 2]>,
    /// Minimum DPI.
    pub dpi_min: Option<u16>,
    /// Maximum DPI.
    pub dpi_max: Option<u32>,
}

/// A hex-string field of a definition (`"0x0084"` or `"0084"`) read as a
/// number of at most `max`: every leading `0x` is removed, then every
/// leading `0X`, and the rest is parsed as hex.
pub open spec fn hex_field(raw: Seq<u8>, max: int) -> Result<int, IntErrorKind> {
    number_value(trim_hex_prefixes(raw), 16, max)
}

fn parse_hex_field(raw: &str, max: u32) -> (r: Result<u32, IntErrorKind>)
    requires
        max <= 0xFFFF,
    ensures
        r matches Ok(v) ==> hex_field(raw.spec_bytes(), max as int) == Ok::<int, IntErrorKind>(
            v as int,
        ) && v <= max,
        r matches Err(e) ==> hex_field(raw.spec_bytes(), max as int) == Err::<int, IntErrorKind>(e),
{
    let bytes = raw.as_bytes();
    assert(bytes@.subrange(0, bytes@.len() as int) =~= bytes@);
    let after_lower = skip_leading_pair(bytes, 0, 0x30, 0x78);
    let start = skip_leading_pair(bytes, after_lower, 0x30, 0x58);
    let r = parse_number_from(bytes, start, 16, max);
    proof {
        if r is Ok {
            crate::number::lemma_number_value_bounded(bytes@.subrange(start as int, bytes@.len() as int), 16, max as int);
        }
    }
    r
}

/// Parse a USB product id written as a hex string.
pub fn parse_hex_u16(raw: &str) -> (r: Result<u16, IntErrorKind>)
    ensures
        r matches Ok(v) ==> hex_field(raw.spec_bytes(), 0xFFFF) == Ok::<int, IntErrorKind>(v as int),
        r matches Err(e) ==> hex_field(raw.spec_bytes(), 0xFFFF) == Err::<int, IntErrorKind>(e),
{
    match parse_hex_field(raw, 0xFFFF) {
        Ok(v) => Ok(v as u16),
        Err(e) => Err(e),
    }
}

/// Parse a transaction id written as a hex string.
pub fn parse_hex_u8(raw: &str) -> (r: Result<u8, IntErrorKind>)
    ensures
        r matches Ok(v) ==> hex_field(raw.spec_bytes(), 0xFF) == Ok::<int, IntErrorKind>(v as int),
        r matches Err(e) ==> hex_field(raw.spec_bytes(), 0xFF) == Err::<int, IntErrorKind>(e),
{
    match parse_hex_field(raw, 0xFF) {
        Ok(v) => Ok(v as u8),
        Err(e) => Err(e),
    }
}

/// A collection of loaded device definitions, looked up by PID.
#[derive(Debug, Clone)]
pub struct Registry {
    devices: Vec<DeviceDef>,
}

impl View for Registry {
    type V = Seq<DeviceDef>;

    /// The definitions in the order they were added.
    closed spec fn view(&self) -> Seq<DeviceDef> {
        self.devices@
    }
}

/// Index of the first definition in `defs` with product id `pid`, if any.
pub open spec fn first_with_pid(defs: Seq<DeviceDef>, pid: u16) -> Option<int>
    decreases defs.len(),
{
    if defs.len() == 0 {
        None
    } else if defs[0].usb_pid == pid {
        Some(0)
    } else {
        match first_with_pid(defs.drop_first(), pid) {
            Some(i) => Some(i + 1),
            None => None,
        }
    }
}

impl Default for Registry {
    /// An empty registry.
    fn default() -> (r: Self)
        ensures
            r@ == Seq::<DeviceDef>::empty(),
    {
        Registry { devices: Vec::new() }
    }
}

impl Registry {
    /// Create an empty registry.
    pub fn new() -> (r: Self)
        ensures
            r@ == Seq::<DeviceDef>::empty(),
    {
        Registry { devices: Vec::new() }
    }

    /// Add a definition.
    pub fn push(&mut self, def: DeviceDef)
        ensures
            final(self)@ == old(self)@.push(def),
    {
        self.devices.push(def);
    }

    /// All loaded definitions.
    pub fn devices(&self) -> (d: &[DeviceDef])
        ensures
            d@ == self@,
    {
        self.devices.as_slice()
    }

    /// Look up a device by USB PID: the first definition added with that
    /// PID, or `None` when there is none.
    pub fn find_by_pid(&self, pid: u16) -> (r: Option<&DeviceDef>)
        ensures
            match first_with_pid(self@, pid) {
                Some(i) => r == Some(&self@[i]),
                None => r is None,
            },
    {
        let n = self.devices.len();
        let mut i: usize = 0;
        assert(self.devices@.subrange(0, n as int) =~= self.devices@);
        while i < n
            invariant
                n == self.devices@.len(),
                i <= n,
                first_with_pid(self.devices@, pid) == (match first_with_pid(
                    self.devices@.subrange(i as int, n as int),
                    pid,
                ) {
                    Some(j) => Some(j + i),
                    None => None::<int>,
                }),
            decreases n - i,
        {
            let ghost rest = self.devices@.subrange(i as int, n as int);
            assert(rest.drop_first() =~= self.devices@.subrange(i + 1, n as int));
            if self.devices[i].usb_pid == pid {
                return Some(&self.devices[i]);
            }
            i = i + 1;
        }
        None
    }
}

/// A found definition carries the PID it was looked up by, lies in the
/// registry, and no earlier definition has that PID; `None` means no
/// definition has it.
pub proof fn lemma_first_with_pid(defs: Seq<DeviceDef>, pid: u16)
    ensures
        first_with_pid(defs, pid) matches Some(i) ==> {
            &&& 0 <= i < defs.len()
            &&& defs[i].usb_pid == pid
            &&& forall|j: int| 0 <= j < i ==> defs[j].usb_pid != pid
        },
        first_with_pid(defs, pid) is None ==> forall|j: int|
            0 <= j < defs.len() ==> defs[j].usb_pid != pid,
    decreases defs.len(),
{
    if defs.len() > 0 {
        lemma_first_with_pid(defs.drop_first(), pid);
        if defs[0].usb_pid != pid {
            assert forall|j: int| 1 <= j < defs.len() implies defs[j] == defs.drop_first()[j - 1] by {}
        }
    }
}

} // verus!
