//! Classic whole-matrix effect ids (byte 0 of the matrix-effect command).
use vstd::prelude::*;

verus! {

pub const OFF: u8 = 0x00;

pub const WAVE: u8 = 0x01;

pub const REACTIVE: u8 = 0x02;

pub const BREATHING: u8 = 0x03;

pub const SPECTRUM: u8 = 0x04;

pub const CUSTOM: u8 = 0x05;

pub const STATIC: u8 = 0x06;

pub const STARLIGHT: u8 = 0x19;

} // verus!
