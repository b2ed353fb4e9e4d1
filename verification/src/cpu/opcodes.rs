//! The opcode dispatch engine: fetches one byte at the program counter
//! and performs that instruction's register, memory, flag and cycle
//! effects.
//!
//! Every byte value decodes to a defined (possibly no-op) effect; there is
//! no fault path. Unassigned slots of the base table consume only the
//! fetch cycle, which reproduces the reference hardware's behaviour for
//! undefined opcodes.
//!
//! `spec_execute_opcode` is the mathematical meaning of one dispatch: the
//! executable engine is proved to transform the machine state exactly as
//! that function says.

use vstd::prelude::*;
use crate::cpu::{
    hi_byte, lo_byte, spec_charge_cycle, spec_get_pair, spec_get_reg, spec_mem, spec_mem_word,
    spec_set_flag_c, spec_set_flag_h, spec_set_flag_n, spec_set_flag_z, spec_set_pair,
    spec_set_reg, spec_write_mem, spec_write_mem_word, wrap16, wrap8, CpuState, CpuView, Register,
    RegisterPair,
};
use crate::cpu::{add16, dec16, inc16};
use crate::cpu::microops;

verus! {

/// The state and value of a one-byte operand fetch: the program counter
/// advances (wrapping) and the access costs one cycle.
pub open spec fn spec_fetch_byte(s: CpuView) -> (CpuView, u8) {
    (CpuView { pc: wrap16(s.pc + 1), ..spec_charge_cycle(s) }, spec_mem(s, s.pc))
}

/// The state and value of a two-byte little-endian operand fetch.
pub open spec fn spec_fetch_word(s: CpuView) -> (CpuView, u16) {
    (
        CpuView { pc: wrap16(s.pc + 2), ..spec_charge_cycle(spec_charge_cycle(s)) },
        spec_mem_word(s, s.pc),
    )
}

/// An immediate load: fetch one byte and store it in `register`.
pub open spec fn spec_load_immediate_value(s: CpuView, register: Register) -> CpuView {
    let fetched = spec_fetch_byte(s);
    spec_set_reg(fetched.0, register, fetched.1)
}

/// A register-to-register move; no memory access, no flag effect.
pub open spec fn spec_load_register_to_register(
    s: CpuView,
    source: Register,
    destination: Register,
) -> CpuView {
    spec_set_reg(s, destination, spec_get_reg(s, source))
}

/// A memory-indirect load into `destination`; one access cycle.
pub open spec fn spec_load_memory_to_register(
    s: CpuView,
    address: u16,
    destination: Register,
) -> CpuView {
    spec_set_reg(spec_charge_cycle(s), destination, spec_mem(s, address))
}

/// A memory-indirect store of `source`; one access cycle.
pub open spec fn spec_load_register_to_memory(
    s: CpuView,
    source: Register,
    address: u16,
) -> CpuView {
    spec_write_mem(s, address, spec_get_reg(s, source))
}

/// Fetch one byte and store it at the address held in `register_pair`.
pub open spec fn spec_load_immediate_to_memory(s: CpuView, register_pair: RegisterPair) -> CpuView {
    let address = spec_get_pair(s, register_pair);
    let fetched = spec_fetch_byte(s);
    spec_write_mem(fetched.0, address, fetched.1)
}

/// Fetch a little-endian word and store it in `register_pair`.
pub open spec fn spec_load_word_to_pair(s: CpuView, register_pair: RegisterPair) -> CpuView {
    let fetched = spec_fetch_word(s);
    spec_set_pair(fetched.0, register_pair, fetched.1)
}

/// Fetch a little-endian word and store it in the stack pointer.
pub open spec fn spec_load_word_to_stack_pointer(s: CpuView) -> CpuView {
    let fetched = spec_fetch_word(s);
    CpuView { sp: fetched.1, ..fetched.0 }
}

/// Fetch a little-endian address and store the stack pointer there.
pub open spec fn spec_store_stack_pointer(s: CpuView) -> CpuView {
    let fetched = spec_fetch_word(s);
    spec_write_mem_word(fetched.0, fetched.1, fetched.0.sp)
}

/// A stack push: the stack pointer decrements (wrapping) before each of
/// the two byte writes — high byte to the higher address, low byte below
/// it — and one flat internal cycle is charged.
pub open spec fn spec_push(s: CpuView, register_pair: RegisterPair) -> CpuView {
    let word = spec_get_pair(s, register_pair);
    let sp1 = wrap16(s.sp - 1);
    let t1 = spec_write_mem(CpuView { sp: sp1, ..s }, sp1, hi_byte(word));
    let sp2 = wrap16(sp1 - 1);
    let t2 = spec_write_mem(CpuView { sp: sp2, ..t1 }, sp2, lo_byte(word));
    spec_charge_cycle(t2)
}

/// A stack pop: low byte then high byte from ascending addresses, the
/// stack pointer incrementing (wrapping) after each read; no extra cycle.
pub open spec fn spec_pop(s: CpuView, register_pair: RegisterPair) -> CpuView {
    let low = spec_mem(s, s.sp);
    let sp1 = wrap16(s.sp + 1);
    let high = spec_mem(s, sp1);
    let sp2 = wrap16(sp1 + 1);
    spec_set_pair(
        CpuView { sp: sp2, ..spec_charge_cycle(spec_charge_cycle(s)) },
        register_pair,
        (high as u16 * 256 + low as u16) as u16,
    )
}

/// The two's-complement reading of an operand byte.
pub open spec fn spec_signed_offset(byte: u8) -> int {
    if byte < 0x80 {
        byte as int
    } else {
        byte - 256
    }
}

/// The stack-pointer-relative signed add: fetch a signed byte, add it to
/// the stack pointer modulo 2^16, store the sum in `HL`, clear Zero and
/// Subtract, and set Half-carry/Carry from the unsigned low-nibble and
/// low-byte comparison between the sum and the untouched stack pointer —
/// the hardware's documented quirk. One extra internal cycle.
pub open spec fn spec_add_sp_immediate(s: CpuView) -> CpuView {
    let fetched = spec_fetch_byte(s);
    let t = fetched.0;
    let sum = wrap16(t.sp + spec_signed_offset(fetched.1));
    let t2 = spec_set_pair(t, RegisterPair::HL, sum);
    let t3 = spec_set_flag_n(spec_set_flag_z(t2, false), false);
    let t4 = spec_set_flag_h(t3, (sum & 0xF) < (t.sp & 0xF));
    let t5 = spec_set_flag_c(t4, (sum & 0xFF) < (t.sp & 0xFF));
    spec_charge_cycle(t5)
}

/// Store the accumulator at the address in `HL`, then move `HL` by
/// `delta` (wrapping).
pub open spec fn spec_store_accumulator_and_step_hl(s: CpuView, delta: int) -> CpuView {
    let address = spec_get_pair(s, RegisterPair::HL);
    let t = spec_load_register_to_memory(s, Register::A, address);
    spec_set_pair(t, RegisterPair::HL, wrap16(address + delta))
}

/// Load the accumulator from the address in `HL`, then move `HL` by
/// `delta` (wrapping).
pub open spec fn spec_load_accumulator_and_step_hl(s: CpuView, delta: int) -> CpuView {
    let address = spec_get_pair(s, RegisterPair::HL);
    let t = spec_load_memory_to_register(s, address, Register::A);
    spec_set_pair(t, RegisterPair::HL, wrap16(address + delta))
}

/// The register an operand code of the register-to-register block names
/// (code 6, the memory operand, is handled separately).
pub open spec fn spec_block_register(code: u8) -> Register {
    if code == 0 {
        Register::B
    } else if code == 1 {
        Register::C
    } else if code == 2 {
        Register::D
    } else if code == 3 {
        Register::E
    } else if code == 4 {
        Register::H
    } else if code == 5 {
        Register::L
    } else {
        Register::A
    }
}

/// One instruction of the move block (opcodes 0x40 through 0x7F), already
/// past its fetch: source in the low three bits, destination in the next
/// three, operand code 6 meaning the byte at `HL`. The slot where both
/// codes are 6 is not a load and is left as a no-op here.
pub open spec fn spec_execute_load_block(t: CpuView, opcode: u8) -> CpuView {
    let source_code = opcode % 8;
    let destination_code = (opcode / 8) % 8;
    if source_code == 6 && destination_code == 6 {
        t
    } else if source_code == 6 {
        spec_load_memory_to_register(
            t,
            spec_get_pair(t, RegisterPair::HL),
            spec_block_register(destination_code),
        )
    } else if destination_code == 6 {
        spec_load_register_to_memory(
            t,
            spec_block_register(source_code),
            spec_get_pair(t, RegisterPair::HL),
        )
    } else {
        spec_load_register_to_register(
            t,
            spec_block_register(source_code),
            spec_block_register(destination_code),
        )
    }
}

/// The instructions of the first quadrant (opcodes below 0x40), already
/// past their fetch; unassigned slots are no-ops.
pub open spec fn spec_execute_low(t: CpuView, opcode: u8) -> CpuView {
    if opcode == 0x01 {
        spec_load_word_to_pair(t, RegisterPair::BC)
    } else if opcode == 0x02 {
        spec_load_register_to_memory(t, Register::A, spec_get_pair(t, RegisterPair::BC))
    } else if opcode == 0x06 {
        spec_load_immediate_value(t, Register::B)
    } else if opcode == 0x08 {
        spec_store_stack_pointer(t)
    } else if opcode == 0x0a {
        spec_load_memory_to_register(t, spec_get_pair(t, RegisterPair::BC), Register::A)
    } else if opcode == 0x0e {
        spec_load_immediate_value(t, Register::C)
    } else if opcode == 0x11 {
        spec_load_word_to_pair(t, RegisterPair::DE)
    } else if opcode == 0x12 {
        spec_load_register_to_memory(t, Register::A, spec_get_pair(t, RegisterPair::DE))
    } else if opcode == 0x16 {
        spec_load_immediate_value(t, Register::D)
    } else if opcode == 0x1a {
        spec_load_memory_to_register(t, spec_get_pair(t, RegisterPair::DE), Register::A)
    } else if opcode == 0x1e {
        spec_load_immediate_value(t, Register::E)
    } else if opcode == 0x21 {
        spec_load_word_to_pair(t, RegisterPair::HL)
    } else if opcode == 0x22 {
        spec_store_accumulator_and_step_hl(t, 1)
    } else if opcode == 0x26 {
        spec_load_immediate_value(t, Register::H)
    } else if opcode == 0x2a {
        spec_load_accumulator_and_step_hl(t, 1)
    } else if opcode == 0x2e {
        spec_load_immediate_value(t, Register::L)
    } else if opcode == 0x31 {
        spec_load_word_to_stack_pointer(t)
    } else if opcode == 0x32 {
        spec_store_accumulator_and_step_hl(t, -1)
    } else if opcode == 0x36 {
        spec_load_immediate_to_memory(t, RegisterPair::HL)
    } else if opcode == 0x3a {
        spec_load_accumulator_and_step_hl(t, -1)
    } else if opcode == 0x3e {
        spec_load_immediate_value(t, Register::A)
    } else {
        t
    }
}

/// The instructions of the last quadrant (opcodes 0xC0 and above),
/// already past their fetch; unassigned slots are no-ops.
pub open spec fn spec_execute_high(t: CpuView, opcode: u8) -> CpuView {
    if opcode == 0xc1 {
        spec_pop(t, RegisterPair::BC)
    } else if opcode == 0xc5 {
        spec_push(t, RegisterPair::BC)
    } else if opcode == 0xd1 {
        spec_pop(t, RegisterPair::DE)
    } else if opcode == 0xd5 {
        spec_push(t, RegisterPair::DE)
    } else if opcode == 0xe0 {
        let fetched = spec_fetch_byte(t);
        spec_load_register_to_memory(fetched.0, Register::A, (0xFF00 + fetched.1) as u16)
    } else if opcode == 0xe1 {
        spec_pop(t, RegisterPair::HL)
    } else if opcode == 0xe2 {
        spec_load_register_to_memory(t, Register::A, (0xFF00 + spec_get_reg(t, Register::C)) as u16)
    } else if opcode == 0xe5 {
        spec_push(t, RegisterPair::HL)
    } else if opcode == 0xea {
        let fetched = spec_fetch_word(t);
        spec_load_register_to_memory(fetched.0, Register::A, fetched.1)
    } else if opcode == 0xf0 {
        let fetched = spec_fetch_byte(t);
        spec_load_memory_to_register(fetched.0, (0xFF00 + fetched.1) as u16, Register::A)
    } else if opcode == 0xf1 {
        spec_pop(t, RegisterPair::AF)
    } else if opcode == 0xf2 {
        spec_load_memory_to_register(t, (0xFF00 + spec_get_reg(t, Register::C)) as u16, Register::A)
    } else if opcode == 0xf5 {
        spec_push(t, RegisterPair::AF)
    } else if opcode == 0xf8 {
        spec_add_sp_immediate(t)
    } else if opcode == 0xf9 {
        spec_charge_cycle(CpuView { sp: spec_get_pair(t, RegisterPair::HL), ..t })
    } else if opcode == 0xfa {
        let fetched = spec_fetch_word(t);
        spec_load_memory_to_register(fetched.0, fetched.1, Register::A)
    } else {
        t
    }
}

/// The effect of an instruction whose opcode byte has been fetched, `t`
/// being the state just after that fetch.
pub open spec fn spec_execute_fetched(t: CpuView, opcode: u8) -> CpuView {
    if opcode < 0x40 {
        spec_execute_low(t, opcode)
    } else if opcode < 0x80 {
        spec_execute_load_block(t, opcode)
    } else if opcode < 0xC0 {
        t
    } else {
        spec_execute_high(t, opcode)
    }
}

/// The effect of one full dispatch: fetch the opcode at the program
/// counter (consuming the fetch cycle) and perform its instruction.
pub open spec fn spec_execute_opcode(s: CpuView) -> CpuView {
    let fetched = spec_fetch_byte(s);
    spec_execute_fetched(fetched.0, fetched.1)
}

/// Fetches the next operand byte, advancing the program counter.
pub fn read_next_instruction_byte(cpu_state: &mut CpuState) -> (byte: u8)
    requires
        old(cpu_state).wf(),
    ensures
        final(cpu_state).wf(),
        final(cpu_state)@ == spec_fetch_byte(old(cpu_state)@).0,
        byte == spec_fetch_byte(old(cpu_state)@).1,
{
    let pc = cpu_state.registers.program_counter;
    let byte = microops::read_byte_from_memory(cpu_state, pc);
    cpu_state.registers.program_counter = inc16(pc);
    byte
}

/// Fetches the next two operand bytes as a little-endian word.
pub fn read_next_instruction_word(cpu_state: &mut CpuState) -> (word: u16)
    requires
        old(cpu_state).wf(),
    ensures
        final(cpu_state).wf(),
        final(cpu_state)@ == spec_fetch_word(old(cpu_state)@).0,
        word == spec_fetch_word(old(cpu_state)@).1,
{
    let pc = cpu_state.registers.program_counter;
    let word = microops::read_word_from_memory(cpu_state, pc);
    cpu_state.registers.program_counter = add16(pc, 2);
    word
}

/// Fetches an immediate byte into `register`.
pub fn load_immediate_value(cpu_state: &mut CpuState, register: Register)
    requires
        old(cpu_state).wf(),
    ensures
        final(cpu_state).wf(),
        final(cpu_state)@ == spec_load_immediate_value(old(cpu_state)@, register),
{
    let immediate_byte = read_next_instruction_byte(cpu_state);
    microops::store_in_register(cpu_state, register, immediate_byte);
}

/// Copies `source` into `destination`.
pub fn load_source_register_in_destination_register(
    cpu_state: &mut CpuState,
    source: Register,
    destination: Register,
)
    requires
        old(cpu_state).wf(),
    ensures
        final(cpu_state).wf(),
        final(cpu_state)@ == spec_load_register_to_register(old(cpu_state)@, source, destination),
{
    let source_value = microops::read_from_register(cpu_state, source);
    microops::store_in_register(cpu_state, destination, source_value);
}

/// Loads the byte at `address` into `destination`.
pub fn load_memory_byte_in_destination_register(
    cpu_state: &mut CpuState,
    address: u16,
    destination: Register,
)
    requires
        old(cpu_state).wf(),
    ensures
        final(cpu_state).wf(),
        final(cpu_state)@ == spec_load_memory_to_register(old(cpu_state)@, address, destination),
{
    let byte = microops::read_byte_from_memory(cpu_state, address);
    microops::store_in_register(cpu_state, destination, byte);
}

/// Stores `source` at `address`.
pub fn load_source_register_in_memory(cpu_state: &mut CpuState, source: Register, address: u16)
    requires
        old(cpu_state).wf(),
    ensures
        final(cpu_state).wf(),
        final(cpu_state)@ == spec_load_register_to_memory(old(cpu_state)@, source, address),
{
    let byte = microops::read_from_register(cpu_state, source);
    microops::store_byte_in_memory(cpu_state, address, byte);
}

/// Fetches an immediate byte and stores it at the address held in
/// `register_pair`.
pub fn load_immediate_value_in_memory(cpu_state: &mut CpuState, register_pair: RegisterPair)
    requires
        old(cpu_state).wf(),
    ensures
        final(cpu_state).wf(),
        final(cpu_state)@ == spec_load_immediate_to_memory(old(cpu_state)@, register_pair),
{
    let address = microops::read_from_register_pair(cpu_state, register_pair);
    let immediate_byte = read_next_instruction_byte(cpu_state);
    microops::store_byte_in_memory(cpu_state, address, immediate_byte);
}

/// Pushes `register_pair`: two descending-address writes, high byte
/// first, plus one internal cycle.
pub fn push_register_pair_to_stack(cpu_state: &mut CpuState, register_pair: RegisterPair)
    requires
        old(cpu_state).wf(),
    ensures
        final(cpu_state).wf(),
        final(cpu_state)@ == spec_push(old(cpu_state)@, register_pair),
{
    let word = microops::read_from_register_pair(cpu_state, register_pair);
    let sp1 = dec16(cpu_state.registers.stack_pointer);
    cpu_state.registers.stack_pointer = sp1;
    microops::store_byte_in_memory(cpu_state, sp1, (word / 256) as u8);
    let sp2 = dec16(cpu_state.registers.stack_pointer);
    cpu_state.registers.stack_pointer = sp2;
    microops::store_byte_in_memory(cpu_state, sp2, (word % 256) as u8);
    microops::run_extra_machine_cycle(cpu_state);
}

/// Pops into `register_pair`: two ascending-address reads, low byte
/// first.
pub fn pop_word_into_register_pair_from_stack(
    cpu_state: &mut CpuState,
    register_pair: RegisterPair,
)
    requires
        old(cpu_state).wf(),
    ensures
        final(cpu_state).wf(),
        final(cpu_state)@ == spec_pop(old(cpu_state)@, register_pair),
{
    let sp0 = cpu_state.registers.stack_pointer;
    let first_byte = microops::read_byte_from_memory(cpu_state, sp0) as u16;
    let sp1 = inc16(sp0);
    cpu_state.registers.stack_pointer = sp1;
    let second_byte = microops::read_byte_from_memory(cpu_state, sp1) as u16;
    cpu_state.registers.stack_pointer = inc16(sp1);
    let word = second_byte * 256 + first_byte;
    microops::store_in_register_pair(cpu_state, register_pair, word);
}

/// The executable counterpart of [`spec_block_register`].
fn decode_block_register(code: u8) -> (register: Register)
    requires
        code < 8,
        code != 6,
    ensures
        register == spec_block_register(code),
{
    match code {
        0 => Register::B,
        1 => Register::C,
        2 => Register::D,
        3 => Register::E,
        4 => Register::H,
        5 => Register::L,
        _ => Register::A,
    }
}

/// The first quadrant of the base table.
fn execute_low(cpu_state: &mut CpuState, opcode: u8)
    requires
        old(cpu_state).wf(),
        opcode < 0x40,
    ensures
        final(cpu_state).wf(),
        final(cpu_state)@ == spec_execute_low(old(cpu_state)@, opcode),
{
    match opcode {
        0x01 => {
            let word = read_next_instruction_word(cpu_state);
            microops::store_in_register_pair(cpu_state, RegisterPair::BC, word);
        },
        0x02 => {
            let address = microops::read_from_register_pair(cpu_state, RegisterPair::BC);
            load_source_register_in_memory(cpu_state, Register::A, address);
        },
        0x06 => load_immediate_value(cpu_state, Register::B),
        0x08 => {
            let address = read_next_instruction_word(cpu_state);
            let stack_pointer = cpu_state.registers.stack_pointer;
            microops::store_word_in_memory(cpu_state, address, stack_pointer);
        },
        0x0a => {
            let address = microops::read_from_register_pair(cpu_state, RegisterPair::BC);
            load_memory_byte_in_destination_register(cpu_state, address, Register::A);
        },
        0x0e => load_immediate_value(cpu_state, Register::C),
        0x11 => {
            let word = read_next_instruction_word(cpu_state);
            microops::store_in_register_pair(cpu_state, RegisterPair::DE, word);
        },
        0x12 => {
            let address = microops::read_from_register_pair(cpu_state, RegisterPair::DE);
            load_source_register_in_memory(cpu_state, Register::A, address);
        },
        0x16 => load_immediate_value(cpu_state, Register::D),
        0x1a => {
            let address = microops::read_from_register_pair(cpu_state, RegisterPair::DE);
            load_memory_byte_in_destination_register(cpu_state, address, Register::A);
        },
        0x1e => load_immediate_value(cpu_state, Register::E),
        0x21 => {
            let word = read_next_instruction_word(cpu_state);
            microops::store_in_register_pair(cpu_state, RegisterPair::HL, word);
        },
        0x22 => {
            let address = microops::read_from_register_pair(cpu_state, RegisterPair::HL);
            load_source_register_in_memory(cpu_state, Register::A, address);
            let next_address = inc16(address);
            microops::store_in_register_pair(cpu_state, RegisterPair::HL, next_address);
        },
        0x26 => load_immediate_value(cpu_state, Register::H),
        0x2a => {
            let address = microops::read_from_register_pair(cpu_state, RegisterPair::HL);
            load_memory_byte_in_destination_register(cpu_state, address, Register::A);
            let next_address = inc16(address);
            microops::store_in_register_pair(cpu_state, RegisterPair::HL, next_address);
        },
        0x2e => load_immediate_value(cpu_state, Register::L),
        0x31 => {
            let word = read_next_instruction_word(cpu_state);
            cpu_state.registers.stack_pointer = word;
        },
        0x32 => {
            let address = microops::read_from_register_pair(cpu_state, RegisterPair::HL);
            load_source_register_in_memory(cpu_state, Register::A, address);
            let next_address = dec16(address);
            microops::store_in_register_pair(cpu_state, RegisterPair::HL, next_address);
        },
        0x36 => load_immediate_value_in_memory(cpu_state, RegisterPair::HL),
        0x3a => {
            let address = microops::read_from_register_pair(cpu_state, RegisterPair::HL);
            load_memory_byte_in_destination_register(cpu_state, address, Register::A);
            let next_address = dec16(address);
            microops::store_in_register_pair(cpu_state, RegisterPair::HL, next_address);
        },
        0x3e => load_immediate_value(cpu_state, Register::A),
        _ => (),
    }
}

/// The move block, opcodes 0x40 through 0x7F.
fn execute_load_block(cpu_state: &mut CpuState, opcode: u8)
    requires
        old(cpu_state).wf(),
        0x40 <= opcode < 0x80,
    ensures
        final(cpu_state).wf(),
        final(cpu_state)@ == spec_execute_load_block(old(cpu_state)@, opcode),
{
    let source_code = opcode % 8;
    let destination_code = (opcode / 8) % 8;
    if source_code == 6 && destination_code == 6 {
        // the halt slot in the middle of the move block is not a load
    } else if source_code == 6 {
        let address = microops::read_from_register_pair(cpu_state, RegisterPair::HL);
        let destination = decode_block_register(destination_code);
        load_memory_byte_in_destination_register(cpu_state, address, destination);
    } else if destination_code == 6 {
        let address = microops::read_from_register_pair(cpu_state, RegisterPair::HL);
        let source = decode_block_register(source_code);
        load_source_register_in_memory(cpu_state, source, address);
    } else {
        let source = decode_block_register(source_code);
        let destination = decode_block_register(destination_code);
        load_source_register_in_destination_register(cpu_state, source, destination);
    }
}

/// The last quadrant of the base table.
fn execute_high(cpu_state: &mut CpuState, opcode: u8)
    requires
        old(cpu_state).wf(),
        0xC0 <= opcode,
    ensures
        final(cpu_state).wf(),
        final(cpu_state)@ == spec_execute_high(old(cpu_state)@, opcode),
{
    match opcode {
        0xc1 => pop_word_into_register_pair_from_stack(cpu_state, RegisterPair::BC),
        0xc5 => push_register_pair_to_stack(cpu_state, RegisterPair::BC),
        0xd1 => pop_word_into_register_pair_from_stack(cpu_state, RegisterPair::DE),
        0xd5 => push_register_pair_to_stack(cpu_state, RegisterPair::DE),
        0xe0 => {
            let offset = read_next_instruction_byte(cpu_state);
            let address = 0xFF00 + offset as u16;
            load_source_register_in_memory(cpu_state, Register::A, address);
        },
        0xe1 => pop_word_into_register_pair_from_stack(cpu_state, RegisterPair::HL),
        0xe2 => {
            let offset = microops::read_from_register(cpu_state, Register::C);
            let address = 0xFF00 + offset as u16;
            load_source_register_in_memory(cpu_state, Register::A, address);
        },
        0xe5 => push_register_pair_to_stack(cpu_state, RegisterPair::HL),
        0xea => {
            let address = read_next_instruction_word(cpu_state);
            load_source_register_in_memory(cpu_state, Register::A, address);
        },
        0xf0 => {
            let offset = read_next_instruction_byte(cpu_state);
            let address = 0xFF00 + offset as u16;
            load_memory_byte_in_destination_register(cpu_state, address, Register::A);
        },
        0xf1 => pop_word_into_register_pair_from_stack(cpu_state, RegisterPair::AF),
        0xf2 => {
            let offset = microops::read_from_register(cpu_state, Register::C);
            let address = 0xFF00 + offset as u16;
            load_memory_byte_in_destination_register(cpu_state, address, Register::A);
        },
        0xf5 => push_register_pair_to_stack(cpu_state, RegisterPair::AF),
        0xf8 => {
            let offset_byte = read_next_instruction_byte(cpu_state);
            let stack_pointer = cpu_state.registers.stack_pointer;
            let sum = if offset_byte < 0x80 {
                add16(stack_pointer, offset_byte as u16)
            } else {
                let magnitude = 0x100 - offset_byte as u16;
                proof {
                    crate::cpu::lemma_wrap16_add_period(
                        stack_pointer as int - magnitude as int,
                    );
                }
                (((stack_pointer as u32) + 0x10000 - (magnitude as u32)) % 0x10000) as u16
            };
            microops::store_in_register_pair(cpu_state, RegisterPair::HL, sum);
            microops::set_flag_z(cpu_state, false);
            microops::set_flag_n(cpu_state, false);
            microops::set_flag_h(cpu_state, (sum & 0xF) < (stack_pointer & 0xF));
            microops::set_flag_c(cpu_state, (sum & 0xFF) < (stack_pointer & 0xFF));
            microops::run_extra_machine_cycle(cpu_state);
        },
        0xf9 => {
            let word = microops::read_from_register_pair(cpu_state, RegisterPair::HL);
            cpu_state.registers.stack_pointer = word;
            microops::run_extra_machine_cycle(cpu_state);
        },
        0xfa => {
            let address = read_next_instruction_word(cpu_state);
            load_memory_byte_in_destination_register(cpu_state, address, Register::A);
        },
        _ => (),
    }
}

/// One full dispatch: fetch the opcode at the program counter and perform
/// the instruction it names. Every byte value is valid to decode;
/// unassigned slots consume only the fetch cycle.
pub fn execute_opcode(cpu_state: &mut CpuState)
    requires
        old(cpu_state).wf(),
    ensures
        final(cpu_state).wf(),
        final(cpu_state)@ == spec_execute_opcode(old(cpu_state)@),
{
    let opcode = read_next_instruction_byte(cpu_state);
    if opcode < 0x40 {
        execute_low(cpu_state, opcode);
    } else if opcode < 0x80 {
        execute_load_block(cpu_state, opcode);
    } else if opcode < 0xC0 {
        // the arithmetic/logic quadrant is unassigned in this base table
    } else {
        execute_high(cpu_state, opcode);
    }
}

/// Pushing a register pair and then popping into the same pair restores
/// the pair's original 16-bit value and leaves the stack pointer where it
/// started, whatever the pair, the addresses involved and the rest of the
/// state.
pub proof fn lemma_push_pop_round_trip(s: CpuView, register_pair: RegisterPair)
    requires
        s.wf(),
    ensures
        spec_get_pair(spec_pop(spec_push(s, register_pair), register_pair), register_pair)
            == spec_get_pair(s, register_pair),
        spec_pop(spec_push(s, register_pair), register_pair).sp == s.sp,
{
    let word = spec_get_pair(s, register_pair);
    let sp1 = wrap16(s.sp - 1);
    let sp2 = wrap16(sp1 - 1);
    crate::cpu::lemma_wrap16_small(sp1 as int);
    crate::cpu::lemma_wrap16_small(sp2 as int);
    if sp1 == 0 {
        crate::cpu::lemma_wrap16_add_period(-1);
        crate::cpu::lemma_wrap16_small(0xFFFF);
        assert(sp2 == 0xFFFF);
    } else {
        crate::cpu::lemma_wrap16_small(sp1 - 1);
    }
    assert(sp1 != sp2);
    crate::cpu::lemma_wrap16_shift(sp1 - 1, 1);
    crate::cpu::lemma_wrap16_shift(s.sp - 1, 1);
    crate::cpu::lemma_wrap16_small(s.sp as int);
    assert(wrap16(sp2 + 1) == sp1);
    assert(wrap16(sp1 + 1) == s.sp);
    crate::cpu::lemma_pair_recompose(word);
    let popped = spec_pop(spec_push(s, register_pair), register_pair);
    match register_pair {
        RegisterPair::AF => {
            let f = s.f;
            assert(f & 0x0F == 0 ==> f & 0xF0 == f) by (bit_vector);
            assert(spec_get_pair(popped, register_pair) == word);
        },
        RegisterPair::BC => {
            assert(spec_get_pair(popped, register_pair) == word);
        },
        RegisterPair::DE => {
            assert(spec_get_pair(popped, register_pair) == word);
        },
        RegisterPair::HL => {
            assert(spec_get_pair(popped, register_pair) == word);
        },
    }
}

/// The flag outcome of the stack-pointer-relative signed add is the
/// documented truth table for that instruction and nothing else: Zero and
/// Subtract come out clear, Half-carry and Carry come from the unsigned
/// low-nibble and low-byte comparison between the sum and the original
/// stack pointer — so the flags depend only on the stack pointer and the
/// immediate byte, never on unrelated register contents.
pub proof fn lemma_sp_add_flag_truth_table(s: CpuView)
    requires
        s.wf(),
        spec_mem(s, s.pc) == 0xF8,
    ensures
        ({
            let offset = spec_mem(s, wrap16(s.pc + 1));
            let sum = wrap16(s.sp + spec_signed_offset(offset));
            let half_carry = (sum & 0xF) < (s.sp & 0xF);
            let carry = (sum & 0xFF) < (s.sp & 0xFF);
            spec_execute_opcode(s).f == (if half_carry {
                0x20u8
            } else {
                0u8
            }) + (if carry {
                0x10u8
            } else {
                0u8
            })
        }),
{
    let f = s.f;
    assert(f & 0x0F == 0 ==> ((((f & 0x7F) & 0xBF) | 0x20) | 0x10) == 0x30) by (bit_vector);
    assert(f & 0x0F == 0 ==> ((((f & 0x7F) & 0xBF) | 0x20) & 0xEF) == 0x20) by (bit_vector);
    assert(f & 0x0F == 0 ==> ((((f & 0x7F) & 0xBF) & 0xDF) | 0x10) == 0x10) by (bit_vector);
    assert(f & 0x0F == 0 ==> ((((f & 0x7F) & 0xBF) & 0xDF) & 0xEF) == 0x00) by (bit_vector);
}

/// The no-op opcode advances the program counter by exactly one
/// (wrapping) and costs the single fetch cycle; every register, flag and
/// memory byte keeps its value.
pub proof fn lemma_noop_advances_only_the_program_counter(s: CpuView)
    requires
        s.wf(),
        spec_mem(s, s.pc) == 0x00,
    ensures
        (spec_execute_opcode(s) == CpuView {
            pc: wrap16(s.pc + 1),
            cycles: wrap8(s.cycles + 1),
            ..s
        }),
{
}

/// The memory-indirect load-and-increment reads the byte at the pair's
/// pre-increment address into the accumulator and leaves the pair holding
/// the successor address modulo 2^16; memory and stack pointer are
/// untouched.
pub proof fn lemma_load_and_increment(s: CpuView)
    requires
        s.wf(),
        spec_mem(s, s.pc) == 0x2A,
    ensures
        ({
            let address = spec_get_pair(s, RegisterPair::HL);
            let result = spec_execute_opcode(s);
            &&& result.a == spec_mem(s, address)
            &&& spec_get_pair(result, RegisterPair::HL) == wrap16(address + 1)
            &&& result.sp == s.sp
            &&& result.mem == s.mem
        }),
{
    let address = spec_get_pair(s, RegisterPair::HL);
    crate::cpu::lemma_pair_recompose(wrap16(address + 1));
}

} // verus!
