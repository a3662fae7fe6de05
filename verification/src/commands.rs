//! Feature-command builders layered on top of the report codec.
//!
//! Every submodule holds functions that build request reports, parsers for
//! the matching response reports, and the argument-byte helpers that both
//! share. Multi-byte values travel big-endian; the spec functions below name
//! the two bytes of such a value and the value that two bytes spell.
use vstd::prelude::*;

pub mod dpi;
pub mod info;
pub mod lighting;
pub mod polling;
pub mod power;

verus! {

/// Persist the setting to the device's onboard flash.
pub const VARSTORE: u8 = 0x01;

/// Do not persist; the setting is volatile until the next write.
pub const NOSTORE: u8 = 0x00;

/// High byte of `v` as sent big-endian.
pub open spec fn hi_byte(v: u16) -> u8 {
    (v / 256) as u8
}

/// Low byte of `v` as sent big-endian.
pub open spec fn lo_byte(v: u16) -> u8 {
    (v % 256) as u8
}

/// The value that the big-endian byte pair `hi`, `lo` spells.
pub open spec fn be_value(hi: u8, lo: u8) -> u16 {
    (hi * 256 + lo) as u16
}

/// Reading back the two bytes of a big-endian value gives the value.
pub proof fn lemma_be_round_trip(v: u16)
    ensures
        be_value(hi_byte(v), lo_byte(v)) == v,
{
}

/// Split `v` into its big-endian byte pair.
pub(crate) fn split_be(v: u16) -> (r: (u8, u8))
    ensures
        r.0 == hi_byte(v),
        r.1 == lo_byte(v),
{
    assert((v >> 8) as u8 == v / 256) by (bit_vector);
    assert((v & 0xFF) as u8 == v % 256) by (bit_vector);
    ((v >> 8) as u8, (v & 0xFF) as u8)
}

/// Join a big-endian byte pair into a value.
pub(crate) fn join_be(hi: u8, lo: u8) -> (r: u16)
    ensures
        r == be_value(hi, lo),
{
    (hi as u16) * 256 + (lo as u16)
}

} // verus!
