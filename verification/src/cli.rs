//! The command-line front end's logic: argument parsing and the commands
//! they ask for, device auto-detection, profiles (editing, naming, storing
//! order, applying), the interactive menu's states and screens, and the text
//! the commands print. Reading the keyboard, talking to devices and storing
//! files are the application's part.
pub mod args;
pub mod command;
pub mod detect;
pub mod display;
pub mod menu;
pub mod messages;
pub mod plan;
pub mod profile;
pub mod screen;
pub mod store;
pub mod zones;
