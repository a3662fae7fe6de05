//! Razer USB HID protocol library: the 90-byte report codec, the feature
//! command builders and parsers, the device registry model, the transport's
//! framing and retry decisions, and the command-line front end's logic
//! (arguments, profiles, plans of device commands, the interactive menu and
//! the text it shows).

pub mod cli;
pub mod commands;
pub mod number;
pub mod registry;
pub mod report;
pub mod text;
pub mod transport;

pub use registry::{Capabilities, DeviceDef, DeviceType, LedRegion, Registry};
pub use report::{status, RazerReport, MAX_ARGS, REPORT_SIZE};
pub use transport::{TransportError, RAZER_VID};
