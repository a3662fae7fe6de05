//! Response status byte values.
use vstd::prelude::*;

verus! {

/// Request accepted, no response yet / send value.
pub const NEW_COMMAND: u8 = 0x00;

/// Device busy; the request may be retried.
pub const BUSY: u8 = 0x01;

/// Command completed successfully.
pub const SUCCESSFUL: u8 = 0x02;

/// Command failed.
pub const FAILURE: u8 = 0x03;

/// Command timed out.
pub const TIMEOUT: u8 = 0x04;

/// Command not supported.
pub const NOT_SUPPORTED: u8 = 0x05;

} // verus!
