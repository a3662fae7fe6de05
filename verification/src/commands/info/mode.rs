//! Device-mode values.
use vstd::prelude::*;

verus! {

/// Normal mode: the device runs its own onboard behaviour.
pub const NORMAL: u8 = 0x00;

/// Driver mode: the device accepts configuration commands from the host.
pub const DRIVER: u8 = 0x03;

} // verus!
