//! Extended-matrix effect ids (byte 2 of the effect command).
use vstd::prelude::*;

verus! {

pub const NONE: u8 = 0x00;

pub const STATIC: u8 = 0x01;

pub const BREATHING: u8 = 0x02;

pub const SPECTRUM: u8 = 0x03;

pub const WAVE: u8 = 0x04;

pub const REACTIVE: u8 = 0x05;

pub const STARLIGHT: u8 = 0x07;

pub const CUSTOM: u8 = 0x08;

pub const WHEEL: u8 = 0x0A;

} // verus!
