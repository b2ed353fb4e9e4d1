//! The flat 16-bit address space the execution core reads and writes.
//!
//! Address decoding, banking and I/O-register side effects belong to
//! collaborating subsystems; the core only depends on byte-granularity
//! reads and writes over the full 64 KiB range, none of which can fail.

use vstd::prelude::*;

verus! {

/// Number of addressable bytes.
pub const ADDRESS_SPACE_SIZE: usize = 0x10000;

/// A flat byte-addressable memory covering the whole 16-bit address space.
pub struct Memory {
    pub bytes: Vec<u8>,
}

impl View for Memory {
    type V = Seq<u8>;

    open spec fn view(&self) -> Seq<u8> {
        self.bytes@
    }
}

impl Memory {
    /// The memory always spans the full address space, so every 16-bit
    /// address is in bounds.
    pub open spec fn wf(&self) -> bool {
        self@.len() == ADDRESS_SPACE_SIZE
    }
}

/// A fresh memory with every byte cleared.
pub fn initialize_memory() -> (memory: Memory)
    ensures
        memory.wf(),
        forall|i: int| 0 <= i < 0x10000 ==> memory@[i] == 0u8,
{
    let mut bytes: Vec<u8> = Vec::new();
    let mut i: usize = 0;
    while i < ADDRESS_SPACE_SIZE
        invariant
            i <= ADDRESS_SPACE_SIZE,
            bytes@.len() == i,
            forall|j: int| 0 <= j < i ==> bytes@[j] == 0u8,
        decreases ADDRESS_SPACE_SIZE - i,
    {
        bytes.push(0u8);
        i += 1;
    }
    Memory { bytes }
}

/// The byte stored at `address`.
pub fn read_byte(memory: &Memory, address: u16) -> (byte: u8)
    requires
        memory.wf(),
    ensures
        byte == memory@[address as int],
{
    memory.bytes[address as usize]
}

/// Stores `value` at `address`, leaving every other byte unchanged.
pub fn write_byte(memory: &mut Memory, address: u16, value: u8)
    requires
        old(memory).wf(),
    ensures
        final(memory).wf(),
        final(memory)@ == old(memory)@.update(address as int, value),
{
    memory.bytes[address as usize] = value;
}

} // verus!
