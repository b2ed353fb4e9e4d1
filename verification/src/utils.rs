//! Small bit-manipulation helpers shared by the register file, the
//! interrupt controller and the audio registers.

use vstd::prelude::*;

verus! {

/// The value of a single bit of `value`, as 0 or 1.
pub fn get_bit(value: u8, index: u8) -> (bit: u8)
    requires
        index < 8,
    ensures
        bit == (value >> index) & 1,
{
    (value >> index) & 1
}

/// Whether a single bit of `value` is set.
pub fn is_bit_set(value: u8, index: u8) -> (set: bool)
    requires
        index < 8,
    ensures
        set == ((value >> index) & 1 == 1),
{
    (value >> index) & 1 == 1
}

/// `value` with one bit forced to 1.
pub fn set_bit(value: u8, index: u8) -> (result: u8)
    requires
        index < 8,
    ensures
        result == value | (1u8 << index),
{
    value | (1u8 << index)
}

/// `value` with one bit forced to 0.
pub fn reset_bit(value: u8, index: u8) -> (result: u8)
    requires
        index < 8,
    ensures
        result == value & !(1u8 << index),
{
    value & !(1u8 << index)
}

} // verus!
