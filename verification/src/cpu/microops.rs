//! Micro-operations: the primitive register, memory and clock effects
//! every instruction is built from. Each memory access and each internal
//! bus operation costs exactly one machine cycle.

use vstd::prelude::*;
use crate::cpu::{
    spec_charge_cycle, spec_get_pair, spec_get_reg, spec_mem, spec_mem_word, spec_set_flag_c,
    spec_set_flag_h, spec_set_flag_n, spec_set_flag_z, spec_set_pair, spec_set_reg, spec_write_mem,
    spec_write_mem_word, CpuState, Register, RegisterPair,
};
use crate::cpu::inc16;
use crate::mmu;

verus! {

/// Charges one machine cycle for an internal bus operation that touches
/// neither registers nor memory.
pub fn run_extra_machine_cycle(cpu_state: &mut CpuState)
    requires
        old(cpu_state).wf(),
    ensures
        final(cpu_state).wf(),
        final(cpu_state)@ == spec_charge_cycle(old(cpu_state)@),
{
    let cycles = cpu_state.clock.instruction_clock_cycles;
    cpu_state.clock.instruction_clock_cycles = if cycles == 255 {
        0
    } else {
        cycles + 1
    };
}

/// Reads the byte at `address`, charging the one-cycle memory access.
pub fn read_byte_from_memory(cpu_state: &mut CpuState, address: u16) -> (byte: u8)
    requires
        old(cpu_state).wf(),
    ensures
        final(cpu_state).wf(),
        final(cpu_state)@ == spec_charge_cycle(old(cpu_state)@),
        byte == spec_mem(old(cpu_state)@, address),
{
    let byte = mmu::read_byte(&cpu_state.memory, address);
    run_extra_machine_cycle(cpu_state);
    byte
}

/// Reads the little-endian word at `address` (two byte accesses, the
/// second at the wrapping successor address), charging two cycles.
pub fn read_word_from_memory(cpu_state: &mut CpuState, address: u16) -> (word: u16)
    requires
        old(cpu_state).wf(),
    ensures
        final(cpu_state).wf(),
        final(cpu_state)@ == spec_charge_cycle(spec_charge_cycle(old(cpu_state)@)),
        word == spec_mem_word(old(cpu_state)@, address),
{
    let low = read_byte_from_memory(cpu_state, address) as u16;
    let high_address = inc16(address);
    let high = read_byte_from_memory(cpu_state, high_address) as u16;
    high * 256 + low
}

/// Stores a byte at `address`, charging the one-cycle memory access.
pub fn store_byte_in_memory(cpu_state: &mut CpuState, address: u16, value: u8)
    requires
        old(cpu_state).wf(),
    ensures
        final(cpu_state).wf(),
        final(cpu_state)@ == spec_write_mem(old(cpu_state)@, address, value),
{
    mmu::write_byte(&mut cpu_state.memory, address, value);
    run_extra_machine_cycle(cpu_state);
}

/// Stores a little-endian word: low byte at `address`, high byte at the
/// wrapping successor, one cycle per byte.
pub fn store_word_in_memory(cpu_state: &mut CpuState, address: u16, word: u16)
    requires
        old(cpu_state).wf(),
    ensures
        final(cpu_state).wf(),
        final(cpu_state)@ == spec_write_mem_word(old(cpu_state)@, address, word),
{
    store_byte_in_memory(cpu_state, address, (word % 256) as u8);
    let high_address = inc16(address);
    store_byte_in_memory(cpu_state, high_address, (word / 256) as u8);
}

/// The value of one 8-bit register; no cycle cost.
pub fn read_from_register(cpu_state: &CpuState, register: Register) -> (byte: u8)
    ensures
        byte == spec_get_reg(cpu_state@, register),
{
    match register {
        Register::A => cpu_state.registers.a,
        Register::B => cpu_state.registers.b,
        Register::C => cpu_state.registers.c,
        Register::D => cpu_state.registers.d,
        Register::E => cpu_state.registers.e,
        Register::F => cpu_state.registers.f,
        Register::H => cpu_state.registers.h,
        Register::L => cpu_state.registers.l,
    }
}

/// Writes one 8-bit register; a write to the flag register keeps only
/// its top four bits. No cycle cost.
pub fn store_in_register(cpu_state: &mut CpuState, register: Register, value: u8)
    requires
        old(cpu_state).wf(),
    ensures
        final(cpu_state).wf(),
        final(cpu_state)@ == spec_set_reg(old(cpu_state)@, register, value),
{
    proof {
        assert((value & 0xF0) & 0x0F == 0) by (bit_vector);
    }
    match register {
        Register::A => cpu_state.registers.a = value,
        Register::B => cpu_state.registers.b = value,
        Register::C => cpu_state.registers.c = value,
        Register::D => cpu_state.registers.d = value,
        Register::E => cpu_state.registers.e = value,
        Register::F => cpu_state.registers.f = value & 0xF0,
        Register::H => cpu_state.registers.h = value,
        Register::L => cpu_state.registers.l = value,
    }
}

/// A 16-bit pair read, high register over low register; no cycle cost.
pub fn read_from_register_pair(cpu_state: &CpuState, register_pair: RegisterPair) -> (word: u16)
    ensures
        word == spec_get_pair(cpu_state@, register_pair),
{
    match register_pair {
        RegisterPair::AF => cpu_state.registers.a as u16 * 256 + cpu_state.registers.f as u16,
        RegisterPair::BC => cpu_state.registers.b as u16 * 256 + cpu_state.registers.c as u16,
        RegisterPair::DE => cpu_state.registers.d as u16 * 256 + cpu_state.registers.e as u16,
        RegisterPair::HL => cpu_state.registers.h as u16 * 256 + cpu_state.registers.l as u16,
    }
}

/// A 16-bit pair write, decomposed into the two backing registers; the
/// flag half of `AF` keeps only its top four bits. No cycle cost.
pub fn store_in_register_pair(cpu_state: &mut CpuState, register_pair: RegisterPair, word: u16)
    requires
        old(cpu_state).wf(),
    ensures
        final(cpu_state).wf(),
        final(cpu_state)@ == spec_set_pair(old(cpu_state)@, register_pair, word),
{
    let high = (word / 256) as u8;
    let low = (word % 256) as u8;
    match register_pair {
        RegisterPair::AF => {
            store_in_register(cpu_state, Register::A, high);
            store_in_register(cpu_state, Register::F, low);
        },
        RegisterPair::BC => {
            store_in_register(cpu_state, Register::B, high);
            store_in_register(cpu_state, Register::C, low);
        },
        RegisterPair::DE => {
            store_in_register(cpu_state, Register::D, high);
            store_in_register(cpu_state, Register::E, low);
        },
        RegisterPair::HL => {
            store_in_register(cpu_state, Register::H, high);
            store_in_register(cpu_state, Register::L, low);
        },
    }
}

/// Sets or clears the Zero flag; no cycle cost.
pub fn set_flag_z(cpu_state: &mut CpuState, value: bool)
    requires
        old(cpu_state).wf(),
    ensures
        final(cpu_state).wf(),
        final(cpu_state)@ == spec_set_flag_z(old(cpu_state)@, value),
{
    proof {
        let f = old(cpu_state).registers.f;
        assert((f | 0x80) & 0x0F == f & 0x0F) by (bit_vector);
        assert((f & 0x7F) & 0x0F == f & 0x0F) by (bit_vector);
    }
    let f = cpu_state.registers.f;
    cpu_state.registers.f = if value {
        f | 0x80
    } else {
        f & 0x7F
    };
}

/// Sets or clears the Subtract flag; no cycle cost.
pub fn set_flag_n(cpu_state: &mut CpuState, value: bool)
    requires
        old(cpu_state).wf(),
    ensures
        final(cpu_state).wf(),
        final(cpu_state)@ == spec_set_flag_n(old(cpu_state)@, value),
{
    proof {
        let f = old(cpu_state).registers.f;
        assert((f | 0x40) & 0x0F == f & 0x0F) by (bit_vector);
        assert((f & 0xBF) & 0x0F == f & 0x0F) by (bit_vector);
    }
    let f = cpu_state.registers.f;
    cpu_state.registers.f = if value {
        f | 0x40
    } else {
        f & 0xBF
    };
}

/// Sets or clears the Half-carry flag; no cycle cost.
pub fn set_flag_h(cpu_state: &mut CpuState, value: bool)
    requires
        old(cpu_state).wf(),
    ensures
        final(cpu_state).wf(),
        final(cpu_state)@ == spec_set_flag_h(old(cpu_state)@, value),
{
    proof {
        let f = old(cpu_state).registers.f;
        assert((f | 0x20) & 0x0F == f & 0x0F) by (bit_vector);
        assert((f & 0xDF) & 0x0F == f & 0x0F) by (bit_vector);
    }
    let f = cpu_state.registers.f;
    cpu_state.registers.f = if value {
        f | 0x20
    } else {
        f & 0xDF
    };
}

/// Sets or clears the Carry flag; no cycle cost.
pub fn set_flag_c(cpu_state: &mut CpuState, value: bool)
    requires
        old(cpu_state).wf(),
    ensures
        final(cpu_state).wf(),
        final(cpu_state)@ == spec_set_flag_c(old(cpu_state)@, value),
{
    proof {
        let f = old(cpu_state).registers.f;
        assert((f | 0x10) & 0x0F == f & 0x0F) by (bit_vector);
        assert((f & 0xEF) & 0x0F == f & 0x0F) by (bit_vector);
    }
    let f = cpu_state.registers.f;
    cpu_state.registers.f = if value {
        f | 0x10
    } else {
        f & 0xEF
    };
}

} // verus!
