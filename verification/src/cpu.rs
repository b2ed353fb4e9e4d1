//! The register file and machine state of the execution core.
//!
//! Eight 8-bit registers pair into four 16-bit pairs; the pair holding the
//! flag register reads its bottom four bits as zero no matter what was
//! written. The program counter and stack pointer are free-running 16-bit
//! counters that wrap modulo 2^16. A per-instruction machine-cycle counter
//! is the timing signal every collaborating subsystem consumes.
//!
//! `CpuView` is the mathematical model of the whole state: plain register
//! values plus the memory as a sequence of bytes. Every contract in the
//! core is stated as an equation between such views.

use vstd::prelude::*;
use crate::mmu::Memory;

pub mod interrupts;
pub mod jumps;
pub mod microops;
pub mod opcodes;

verus! {

/// One of the eight 8-bit registers. `F` is the flag register.
#[derive(Clone, Copy, PartialEq, Eq, Structural)]
pub enum Register {
    A,
    B,
    C,
    D,
    E,
    F,
    H,
    L,
}

/// One of the four 16-bit register pairs, high byte named first.
#[derive(Clone, Copy, PartialEq, Eq, Structural)]
pub enum RegisterPair {
    AF,
    BC,
    DE,
    HL,
}

/// The raw register file.
pub struct Registers {
    pub a: u8,
    pub b: u8,
    pub c: u8,
    pub d: u8,
    pub e: u8,
    pub f: u8,
    pub h: u8,
    pub l: u8,
    pub program_counter: u16,
    pub stack_pointer: u16,
}

/// Machine cycles consumed since the start of the current tick.
pub struct Clock {
    pub instruction_clock_cycles: u8,
}

/// The global interrupt-enable gate: no interrupt is dispatched while it
/// is off, and dispatching an interrupt clears it.
pub struct CpuInterrupts {
    pub enabled: bool,
}

/// The complete state the execution core owns: register file, cycle
/// counter, the global interrupt gate, and the flat address space.
pub struct CpuState {
    pub registers: Registers,
    pub clock: Clock,
    pub interrupts: CpuInterrupts,
    pub memory: Memory,
}

/// The mathematical model of a [`CpuState`].
#[verifier::ext_equal]
pub ghost struct CpuView {
    pub a: u8,
    pub b: u8,
    pub c: u8,
    pub d: u8,
    pub e: u8,
    pub f: u8,
    pub h: u8,
    pub l: u8,
    pub pc: u16,
    pub sp: u16,
    pub ime: bool,
    pub cycles: u8,
    pub mem: Seq<u8>,
}

impl CpuView {
    /// The memory spans the full 16-bit address space, and the four
    /// meaningless low bits of the flag register read as zero.
    pub open spec fn wf(self) -> bool {
        self.mem.len() == 0x10000 && self.f & 0x0F == 0
    }
}

impl View for CpuState {
    type V = CpuView;

    open spec fn view(&self) -> CpuView {
        CpuView {
            a: self.registers.a,
            b: self.registers.b,
            c: self.registers.c,
            d: self.registers.d,
            e: self.registers.e,
            f: self.registers.f,
            h: self.registers.h,
            l: self.registers.l,
            pc: self.registers.program_counter,
            sp: self.registers.stack_pointer,
            ime: self.interrupts.enabled,
            cycles: self.clock.instruction_clock_cycles,
            mem: self.memory@,
        }
    }
}

impl CpuState {
    pub open spec fn wf(&self) -> bool {
        self@.wf()
    }
}

/// Reduction modulo 2^16, the arithmetic of the program counter, the
/// stack pointer and every address computation.
pub open spec fn wrap16(n: int) -> u16 {
    (n % 0x10000) as u16
}

/// Reduction modulo 2^8, the arithmetic of the cycle counter.
pub open spec fn wrap8(n: int) -> u8 {
    (n % 0x100) as u8
}

/// The high byte of a 16-bit word.
pub open spec fn hi_byte(word: u16) -> u8 {
    (word / 256) as u8
}

/// The low byte of a 16-bit word.
pub open spec fn lo_byte(word: u16) -> u8 {
    (word % 256) as u8
}

/// The state after one machine cycle elapses.
pub open spec fn spec_charge_cycle(s: CpuView) -> CpuView {
    CpuView { cycles: wrap8(s.cycles + 1), ..s }
}

/// The byte visible at `address`.
pub open spec fn spec_mem(s: CpuView, address: u16) -> u8 {
    s.mem[address as int]
}

/// The little-endian word visible at `address`, its high byte taken from
/// the (wrapping) successor address.
pub open spec fn spec_mem_word(s: CpuView, address: u16) -> u16 {
    (spec_mem(s, wrap16(address + 1)) as u16 * 256 + spec_mem(s, address) as u16) as u16
}

/// The state after one byte is stored: the memory is updated and the
/// access costs one machine cycle.
pub open spec fn spec_write_mem(s: CpuView, address: u16, value: u8) -> CpuView {
    CpuView { mem: s.mem.update(address as int, value), ..spec_charge_cycle(s) }
}

/// The state after a little-endian word store: low byte at `address`,
/// high byte at the successor, one cycle per byte.
pub open spec fn spec_write_mem_word(s: CpuView, address: u16, word: u16) -> CpuView {
    spec_write_mem(spec_write_mem(s, address, lo_byte(word)), wrap16(address + 1), hi_byte(word))
}

/// The value of one 8-bit register.
pub open spec fn spec_get_reg(s: CpuView, register: Register) -> u8 {
    match register {
        Register::A => s.a,
        Register::B => s.b,
        Register::C => s.c,
        Register::D => s.d,
        Register::E => s.e,
        Register::F => s.f,
        Register::H => s.h,
        Register::L => s.l,
    }
}

/// The state after writing one 8-bit register. A write to the flag
/// register keeps only its top four bits.
pub open spec fn spec_set_reg(s: CpuView, register: Register, value: u8) -> CpuView {
    match register {
        Register::A => CpuView { a: value, ..s },
        Register::B => CpuView { b: value, ..s },
        Register::C => CpuView { c: value, ..s },
        Register::D => CpuView { d: value, ..s },
        Register::E => CpuView { e: value, ..s },
        Register::F => CpuView { f: value & 0xF0, ..s },
        Register::H => CpuView { h: value, ..s },
        Register::L => CpuView { l: value, ..s },
    }
}

/// A 16-bit pair read: high register over low register.
pub open spec fn spec_get_pair(s: CpuView, pair: RegisterPair) -> u16 {
    match pair {
        RegisterPair::AF => (s.a as u16 * 256 + s.f as u16) as u16,
        RegisterPair::BC => (s.b as u16 * 256 + s.c as u16) as u16,
        RegisterPair::DE => (s.d as u16 * 256 + s.e as u16) as u16,
        RegisterPair::HL => (s.h as u16 * 256 + s.l as u16) as u16,
    }
}

/// A 16-bit pair write decomposes into the two backing registers; the
/// flag half of `AF` keeps only its top four bits.
pub open spec fn spec_set_pair(s: CpuView, pair: RegisterPair, word: u16) -> CpuView {
    match pair {
        RegisterPair::AF => CpuView { a: hi_byte(word), f: lo_byte(word) & 0xF0, ..s },
        RegisterPair::BC => CpuView { b: hi_byte(word), c: lo_byte(word), ..s },
        RegisterPair::DE => CpuView { d: hi_byte(word), e: lo_byte(word), ..s },
        RegisterPair::HL => CpuView { h: hi_byte(word), l: lo_byte(word), ..s },
    }
}

/// The Zero flag, bit 7 of the flag register.
pub open spec fn spec_set_flag_z(s: CpuView, on: bool) -> CpuView {
    CpuView { f: if on { s.f | 0x80 } else { s.f & 0x7F }, ..s }
}

/// The Subtract flag, bit 6 of the flag register.
pub open spec fn spec_set_flag_n(s: CpuView, on: bool) -> CpuView {
    CpuView { f: if on { s.f | 0x40 } else { s.f & 0xBF }, ..s }
}

/// The Half-carry flag, bit 5 of the flag register.
pub open spec fn spec_set_flag_h(s: CpuView, on: bool) -> CpuView {
    CpuView { f: if on { s.f | 0x20 } else { s.f & 0xDF }, ..s }
}

/// The Carry flag, bit 4 of the flag register.
pub open spec fn spec_set_flag_c(s: CpuView, on: bool) -> CpuView {
    CpuView { f: if on { s.f | 0x10 } else { s.f & 0xEF }, ..s }
}

/// Shifting the argument by a whole period leaves the wrapped value
/// unchanged.
pub proof fn lemma_wrap16_add_period(n: int)
    ensures
        wrap16(n + 0x10000) == wrap16(n),
{
    vstd::arithmetic::div_mod::lemma_mod_add_multiples_vanish(n, 0x10000);
}

/// An argument already in range wraps to itself.
pub proof fn lemma_wrap16_small(n: int)
    requires
        0 <= n < 0x10000,
    ensures
        wrap16(n) == n,
{
    vstd::arithmetic::div_mod::lemma_small_mod(n as nat, 0x10000);
}

/// Wrapping can be done before or after adding an offset.
pub proof fn lemma_wrap16_shift(n: int, d: int)
    ensures
        wrap16(wrap16(n) + d) == wrap16(n + d),
{
    vstd::arithmetic::div_mod::lemma_fundamental_div_mod(n, 0x10000);
    vstd::arithmetic::div_mod::lemma_mod_multiples_vanish(-(n / 0x10000), n + d, 0x10000);
}

/// A word is its high byte over its low byte.
pub proof fn lemma_pair_recompose(word: u16)
    ensures
        hi_byte(word) * 256 + lo_byte(word) == word,
{
    vstd::arithmetic::div_mod::lemma_fundamental_div_mod(word as int, 256);
}

/// Increment modulo 2^16.
pub fn inc16(value: u16) -> (result: u16)
    ensures
        result == wrap16(value + 1),
{
    if value == 0xFFFF {
        0
    } else {
        value + 1
    }
}

/// Decrement modulo 2^16.
pub fn dec16(value: u16) -> (result: u16)
    ensures
        result == wrap16(value - 1),
{
    if value == 0 {
        0xFFFF
    } else {
        value - 1
    }
}

/// Addition modulo 2^16.
pub fn add16(x: u16, y: u16) -> (result: u16)
    ensures
        result == wrap16(x + y),
{
    (((x as u32) + (y as u32)) % 0x10000) as u16
}

/// A power-on register file: every register, counter and flag cleared,
/// the interrupt gate closed, and the memory zeroed.
pub fn initialize_cpu() -> (cpu_state: CpuState)
    ensures
        cpu_state.wf(),
        cpu_state@.a == 0,
        cpu_state@.b == 0,
        cpu_state@.c == 0,
        cpu_state@.d == 0,
        cpu_state@.e == 0,
        cpu_state@.f == 0,
        cpu_state@.h == 0,
        cpu_state@.l == 0,
        cpu_state@.pc == 0,
        cpu_state@.sp == 0,
        !cpu_state@.ime,
        cpu_state@.cycles == 0,
        forall|i: int| 0 <= i < 0x10000 ==> cpu_state@.mem[i] == 0u8,
{
    proof {
        assert(0u8 & 0x0F == 0) by (bit_vector);
    }
    CpuState {
        registers: Registers {
            a: 0,
            b: 0,
            c: 0,
            d: 0,
            e: 0,
            f: 0,
            h: 0,
            l: 0,
            program_counter: 0,
            stack_pointer: 0,
        },
        clock: Clock { instruction_clock_cycles: 0 },
        interrupts: CpuInterrupts { enabled: false },
        memory: crate::mmu::initialize_memory(),
    }
}

} // verus!
