//! Common LED ids used by the classic single-LED commands, and as `led_id`
//! for extended-matrix commands on single/dual-zone devices.
use vstd::prelude::*;

verus! {

pub const SCROLL: u8 = 0x01;

pub const LOGO: u8 = 0x04;

pub const BACKLIGHT: u8 = 0x05;

} // verus!
