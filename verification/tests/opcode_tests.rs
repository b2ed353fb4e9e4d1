use gameboy_emulator::emulator::{initialize_emulator, step};
use gameboy_emulator::mmu::{read_byte, write_byte};

#[test]
fn noop_advances_program_counter_only() {
    let mut emulator = initialize_emulator();
    emulator.cpu.registers.a = 0x11;
    emulator.cpu.registers.b = 0x22;
    emulator.cpu.registers.f = 0xF0;
    emulator.cpu.registers.stack_pointer = 0xFFFE;
    write_byte(&mut emulator.cpu.memory, 0x0000, 0x00);
    step(&mut emulator);
    assert_eq!(emulator.cpu.registers.program_counter, 0x0001);
    assert_eq!(emulator.cpu.clock.instruction_clock_cycles, 1);
    assert_eq!(emulator.cpu.registers.a, 0x11);
    assert_eq!(emulator.cpu.registers.b, 0x22);
    assert_eq!(emulator.cpu.registers.f, 0xF0);
    assert_eq!(emulator.cpu.registers.stack_pointer, 0xFFFE);
    assert_eq!(read_byte(&emulator.cpu.memory, 0x0000), 0x00);
}

#[test]
fn undefined_opcode_is_noop_with_fetch_cost() {
    let mut emulator = initialize_emulator();
    emulator.cpu.registers.a = 0x55;
    write_byte(&mut emulator.cpu.memory, 0x0000, 0xD3);
    step(&mut emulator);
    assert_eq!(emulator.cpu.registers.program_counter, 0x0001);
    assert_eq!(emulator.cpu.clock.instruction_clock_cycles, 1);
    assert_eq!(emulator.cpu.registers.a, 0x55);
}

#[test]
fn halt_slot_of_move_block_is_noop() {
    let mut emulator = initialize_emulator();
    write_byte(&mut emulator.cpu.memory, 0x0000, 0x76);
    step(&mut emulator);
    assert_eq!(emulator.cpu.registers.program_counter, 0x0001);
    assert_eq!(emulator.cpu.clock.instruction_clock_cycles, 1);
}

#[test]
fn program_counter_wraps_at_the_top_of_memory() {
    let mut emulator = initialize_emulator();
    emulator.cpu.registers.program_counter = 0xFFFF;
    write_byte(&mut emulator.cpu.memory, 0xFFFF, 0x00);
    step(&mut emulator);
    assert_eq!(emulator.cpu.registers.program_counter, 0x0000);
}

#[test]
fn load_immediate_byte_into_accumulator() {
    let mut emulator = initialize_emulator();
    write_byte(&mut emulator.cpu.memory, 0x0000, 0x3E);
    write_byte(&mut emulator.cpu.memory, 0x0001, 0x77);
    step(&mut emulator);
    assert_eq!(emulator.cpu.registers.a, 0x77);
    assert_eq!(emulator.cpu.registers.program_counter, 0x0002);
    assert_eq!(emulator.cpu.clock.instruction_clock_cycles, 2);
}

#[test]
fn load_immediate_word_into_pair_is_little_endian() {
    let mut emulator = initialize_emulator();
    write_byte(&mut emulator.cpu.memory, 0x0000, 0x21);
    write_byte(&mut emulator.cpu.memory, 0x0001, 0x34);
    write_byte(&mut emulator.cpu.memory, 0x0002, 0x12);
    step(&mut emulator);
    assert_eq!(emulator.cpu.registers.h, 0x12);
    assert_eq!(emulator.cpu.registers.l, 0x34);
    assert_eq!(emulator.cpu.registers.program_counter, 0x0003);
    assert_eq!(emulator.cpu.clock.instruction_clock_cycles, 3);
}

#[test]
fn register_to_register_move_costs_one_cycle() {
    let mut emulator = initialize_emulator();
    emulator.cpu.registers.a = 0x99;
    write_byte(&mut emulator.cpu.memory, 0x0000, 0x47);
    step(&mut emulator);
    assert_eq!(emulator.cpu.registers.b, 0x99);
    assert_eq!(emulator.cpu.registers.a, 0x99);
    assert_eq!(emulator.cpu.clock.instruction_clock_cycles, 1);
}

#[test]
fn store_accumulator_at_hl_address() {
    let mut emulator = initialize_emulator();
    emulator.cpu.registers.a = 0x5A;
    emulator.cpu.registers.h = 0xC1;
    emulator.cpu.registers.l = 0x23;
    write_byte(&mut emulator.cpu.memory, 0x0000, 0x77);
    step(&mut emulator);
    assert_eq!(read_byte(&emulator.cpu.memory, 0xC123), 0x5A);
    assert_eq!(emulator.cpu.clock.instruction_clock_cycles, 2);
}

#[test]
fn load_accumulator_from_bc_address() {
    let mut emulator = initialize_emulator();
    emulator.cpu.registers.b = 0xC0;
    emulator.cpu.registers.c = 0x05;
    write_byte(&mut emulator.cpu.memory, 0xC005, 0xAB);
    write_byte(&mut emulator.cpu.memory, 0x0000, 0x0A);
    step(&mut emulator);
    assert_eq!(emulator.cpu.registers.a, 0xAB);
    assert_eq!(emulator.cpu.clock.instruction_clock_cycles, 2);
}

#[test]
fn load_and_increment_reads_pre_increment_address() {
    let mut emulator = initialize_emulator();
    emulator.cpu.registers.h = 0xC0;
    emulator.cpu.registers.l = 0x00;
    write_byte(&mut emulator.cpu.memory, 0xC000, 0x42);
    write_byte(&mut emulator.cpu.memory, 0x0000, 0x2A);
    step(&mut emulator);
    assert_eq!(emulator.cpu.registers.a, 0x42);
    assert_eq!(emulator.cpu.registers.h, 0xC0);
    assert_eq!(emulator.cpu.registers.l, 0x01);
    assert_eq!(emulator.cpu.clock.instruction_clock_cycles, 2);
}

#[test]
fn load_and_increment_wraps_hl_at_the_top() {
    let mut emulator = initialize_emulator();
    emulator.cpu.registers.program_counter = 0x0200;
    emulator.cpu.registers.h = 0xFF;
    emulator.cpu.registers.l = 0xFF;
    write_byte(&mut emulator.cpu.memory, 0xFFFF, 0x7E);
    write_byte(&mut emulator.cpu.memory, 0x0200, 0x2A);
    step(&mut emulator);
    assert_eq!(emulator.cpu.registers.a, 0x7E);
    assert_eq!(emulator.cpu.registers.h, 0x00);
    assert_eq!(emulator.cpu.registers.l, 0x00);
}

#[test]
fn store_and_decrement_wraps_hl_at_zero() {
    let mut emulator = initialize_emulator();
    emulator.cpu.registers.program_counter = 0x0200;
    emulator.cpu.registers.a = 0x31;
    emulator.cpu.registers.h = 0x00;
    emulator.cpu.registers.l = 0x00;
    write_byte(&mut emulator.cpu.memory, 0x0200, 0x32);
    step(&mut emulator);
    assert_eq!(read_byte(&emulator.cpu.memory, 0x0000), 0x31);
    assert_eq!(emulator.cpu.registers.h, 0xFF);
    assert_eq!(emulator.cpu.registers.l, 0xFF);
}

#[test]
fn store_immediate_at_hl_address() {
    let mut emulator = initialize_emulator();
    emulator.cpu.registers.h = 0xC2;
    emulator.cpu.registers.l = 0x00;
    write_byte(&mut emulator.cpu.memory, 0x0000, 0x36);
    write_byte(&mut emulator.cpu.memory, 0x0001, 0x9C);
    step(&mut emulator);
    assert_eq!(read_byte(&emulator.cpu.memory, 0xC200), 0x9C);
    assert_eq!(emulator.cpu.clock.instruction_clock_cycles, 3);
}

#[test]
fn store_stack_pointer_at_immediate_address() {
    let mut emulator = initialize_emulator();
    emulator.cpu.registers.stack_pointer = 0xABCD;
    write_byte(&mut emulator.cpu.memory, 0x0000, 0x08);
    write_byte(&mut emulator.cpu.memory, 0x0001, 0x00);
    write_byte(&mut emulator.cpu.memory, 0x0002, 0xC0);
    step(&mut emulator);
    assert_eq!(read_byte(&emulator.cpu.memory, 0xC000), 0xCD);
    assert_eq!(read_byte(&emulator.cpu.memory, 0xC001), 0xAB);
    assert_eq!(emulator.cpu.clock.instruction_clock_cycles, 5);
}

#[test]
fn load_stack_pointer_from_immediate_word() {
    let mut emulator = initialize_emulator();
    write_byte(&mut emulator.cpu.memory, 0x0000, 0x31);
    write_byte(&mut emulator.cpu.memory, 0x0001, 0xFE);
    write_byte(&mut emulator.cpu.memory, 0x0002, 0xFF);
    step(&mut emulator);
    assert_eq!(emulator.cpu.registers.stack_pointer, 0xFFFE);
    assert_eq!(emulator.cpu.clock.instruction_clock_cycles, 3);
}

#[test]
fn load_stack_pointer_from_hl_costs_extra_cycle() {
    let mut emulator = initialize_emulator();
    emulator.cpu.registers.h = 0x80;
    emulator.cpu.registers.l = 0x00;
    write_byte(&mut emulator.cpu.memory, 0x0000, 0xF9);
    step(&mut emulator);
    assert_eq!(emulator.cpu.registers.stack_pointer, 0x8000);
    assert_eq!(emulator.cpu.clock.instruction_clock_cycles, 2);
}

#[test]
fn high_page_store_with_immediate_offset() {
    let mut emulator = initialize_emulator();
    emulator.cpu.registers.a = 0x66;
    write_byte(&mut emulator.cpu.memory, 0x0000, 0xE0);
    write_byte(&mut emulator.cpu.memory, 0x0001, 0x47);
    step(&mut emulator);
    assert_eq!(read_byte(&emulator.cpu.memory, 0xFF47), 0x66);
    assert_eq!(emulator.cpu.clock.instruction_clock_cycles, 3);
}

#[test]
fn high_page_load_with_register_offset() {
    let mut emulator = initialize_emulator();
    emulator.cpu.registers.c = 0x26;
    write_byte(&mut emulator.cpu.memory, 0xFF26, 0x8F);
    write_byte(&mut emulator.cpu.memory, 0x0000, 0xF2);
    step(&mut emulator);
    assert_eq!(emulator.cpu.registers.a, 0x8F);
    assert_eq!(emulator.cpu.clock.instruction_clock_cycles, 2);
}

#[test]
fn move_block_loads_register_from_hl_operand() {
    let mut emulator = initialize_emulator();
    emulator.cpu.registers.h = 0xC3;
    emulator.cpu.registers.l = 0x10;
    write_byte(&mut emulator.cpu.memory, 0xC310, 0x6D);
    write_byte(&mut emulator.cpu.memory, 0x0000, 0x5E);
    step(&mut emulator);
    assert_eq!(emulator.cpu.registers.e, 0x6D);
    assert_eq!(emulator.cpu.clock.instruction_clock_cycles, 2);
}

#[test]
fn move_block_stores_register_at_hl_operand() {
    let mut emulator = initialize_emulator();
    emulator.cpu.registers.b = 0x9D;
    emulator.cpu.registers.h = 0xC3;
    emulator.cpu.registers.l = 0x20;
    write_byte(&mut emulator.cpu.memory, 0x0000, 0x70);
    step(&mut emulator);
    assert_eq!(read_byte(&emulator.cpu.memory, 0xC320), 0x9D);
    assert_eq!(emulator.cpu.clock.instruction_clock_cycles, 2);
}

#[test]
fn load_accumulator_from_immediate_address() {
    let mut emulator = initialize_emulator();
    write_byte(&mut emulator.cpu.memory, 0xC456, 0x24);
    write_byte(&mut emulator.cpu.memory, 0x0000, 0xFA);
    write_byte(&mut emulator.cpu.memory, 0x0001, 0x56);
    write_byte(&mut emulator.cpu.memory, 0x0002, 0xC4);
    step(&mut emulator);
    assert_eq!(emulator.cpu.registers.a, 0x24);
    assert_eq!(emulator.cpu.clock.instruction_clock_cycles, 4);
}
