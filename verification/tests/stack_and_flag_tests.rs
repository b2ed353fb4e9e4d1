use gameboy_emulator::emulator::{initialize_emulator, step};
use gameboy_emulator::mmu::{read_byte, write_byte};

#[test]
fn push_writes_high_byte_first_to_descending_addresses() {
    let mut emulator = initialize_emulator();
    emulator.cpu.registers.b = 0xBE;
    emulator.cpu.registers.c = 0xEF;
    emulator.cpu.registers.stack_pointer = 0xD000;
    write_byte(&mut emulator.cpu.memory, 0x0000, 0xC5);
    step(&mut emulator);
    assert_eq!(read_byte(&emulator.cpu.memory, 0xCFFF), 0xBE);
    assert_eq!(read_byte(&emulator.cpu.memory, 0xCFFE), 0xEF);
    assert_eq!(emulator.cpu.registers.stack_pointer, 0xCFFE);
    assert_eq!(emulator.cpu.clock.instruction_clock_cycles, 4);
}

#[test]
fn pop_reads_ascending_addresses_low_byte_first() {
    let mut emulator = initialize_emulator();
    emulator.cpu.registers.stack_pointer = 0xCFFE;
    write_byte(&mut emulator.cpu.memory, 0xCFFE, 0xEF);
    write_byte(&mut emulator.cpu.memory, 0xCFFF, 0xBE);
    write_byte(&mut emulator.cpu.memory, 0x0000, 0xD1);
    step(&mut emulator);
    assert_eq!(emulator.cpu.registers.d, 0xBE);
    assert_eq!(emulator.cpu.registers.e, 0xEF);
    assert_eq!(emulator.cpu.registers.stack_pointer, 0xD000);
    assert_eq!(emulator.cpu.clock.instruction_clock_cycles, 3);
}

#[test]
fn push_then_pop_restores_pair_and_stack_pointer() {
    let mut emulator = initialize_emulator();
    emulator.cpu.registers.b = 0x12;
    emulator.cpu.registers.c = 0x34;
    emulator.cpu.registers.stack_pointer = 0xD000;
    write_byte(&mut emulator.cpu.memory, 0x0000, 0xC5);
    write_byte(&mut emulator.cpu.memory, 0x0001, 0xC1);
    step(&mut emulator);
    emulator.cpu.registers.b = 0x00;
    emulator.cpu.registers.c = 0x00;
    step(&mut emulator);
    assert_eq!(emulator.cpu.registers.b, 0x12);
    assert_eq!(emulator.cpu.registers.c, 0x34);
    assert_eq!(emulator.cpu.registers.stack_pointer, 0xD000);
}

#[test]
fn push_then_pop_of_accumulator_and_flags_round_trips() {
    let mut emulator = initialize_emulator();
    emulator.cpu.registers.a = 0x3C;
    emulator.cpu.registers.f = 0xB0;
    emulator.cpu.registers.stack_pointer = 0xD000;
    write_byte(&mut emulator.cpu.memory, 0x0000, 0xF5);
    write_byte(&mut emulator.cpu.memory, 0x0001, 0xF1);
    step(&mut emulator);
    emulator.cpu.registers.a = 0x00;
    emulator.cpu.registers.f = 0x00;
    step(&mut emulator);
    assert_eq!(emulator.cpu.registers.a, 0x3C);
    assert_eq!(emulator.cpu.registers.f, 0xB0);
    assert_eq!(emulator.cpu.registers.stack_pointer, 0xD000);
}

#[test]
fn pop_into_flag_register_masks_low_nibble() {
    let mut emulator = initialize_emulator();
    emulator.cpu.registers.stack_pointer = 0xC000;
    write_byte(&mut emulator.cpu.memory, 0xC000, 0xFF);
    write_byte(&mut emulator.cpu.memory, 0xC001, 0x12);
    write_byte(&mut emulator.cpu.memory, 0x0000, 0xF1);
    step(&mut emulator);
    assert_eq!(emulator.cpu.registers.a, 0x12);
    assert_eq!(emulator.cpu.registers.f, 0xF0);
}

#[test]
fn stack_pointer_wraps_below_zero_on_push() {
    let mut emulator = initialize_emulator();
    emulator.cpu.registers.b = 0x12;
    emulator.cpu.registers.c = 0x34;
    emulator.cpu.registers.stack_pointer = 0x0000;
    write_byte(&mut emulator.cpu.memory, 0x0100, 0xC5);
    emulator.cpu.registers.program_counter = 0x0100;
    step(&mut emulator);
    assert_eq!(emulator.cpu.registers.stack_pointer, 0xFFFE);
    assert_eq!(read_byte(&emulator.cpu.memory, 0xFFFF), 0x12);
    assert_eq!(read_byte(&emulator.cpu.memory, 0xFFFE), 0x34);
}

#[test]
fn stack_pointer_wraps_past_the_top_on_pop() {
    let mut emulator = initialize_emulator();
    emulator.cpu.registers.stack_pointer = 0xFFFF;
    write_byte(&mut emulator.cpu.memory, 0xFFFF, 0xCD);
    write_byte(&mut emulator.cpu.memory, 0x0000, 0xAB);
    write_byte(&mut emulator.cpu.memory, 0x0100, 0xC1);
    emulator.cpu.registers.program_counter = 0x0100;
    step(&mut emulator);
    assert_eq!(emulator.cpu.registers.b, 0xAB);
    assert_eq!(emulator.cpu.registers.c, 0xCD);
    assert_eq!(emulator.cpu.registers.stack_pointer, 0x0001);
}

#[test]
fn signed_add_to_stack_pointer_with_negative_immediate() {
    let mut emulator = initialize_emulator();
    emulator.cpu.registers.stack_pointer = 0x0005;
    write_byte(&mut emulator.cpu.memory, 0x0000, 0xF8);
    write_byte(&mut emulator.cpu.memory, 0x0001, 0xFF);
    step(&mut emulator);
    assert_eq!(emulator.cpu.registers.h, 0x00);
    assert_eq!(emulator.cpu.registers.l, 0x04);
    assert_eq!(emulator.cpu.registers.f, 0x30);
    assert_eq!(emulator.cpu.registers.stack_pointer, 0x0005);
    assert_eq!(emulator.cpu.clock.instruction_clock_cycles, 3);
}

#[test]
fn signed_add_to_stack_pointer_with_positive_immediate() {
    let mut emulator = initialize_emulator();
    emulator.cpu.registers.stack_pointer = 0x0005;
    emulator.cpu.registers.f = 0xF0;
    write_byte(&mut emulator.cpu.memory, 0x0000, 0xF8);
    write_byte(&mut emulator.cpu.memory, 0x0001, 0x01);
    step(&mut emulator);
    assert_eq!(emulator.cpu.registers.h, 0x00);
    assert_eq!(emulator.cpu.registers.l, 0x06);
    assert_eq!(emulator.cpu.registers.f, 0x00);
    assert_eq!(emulator.cpu.registers.stack_pointer, 0x0005);
}

#[test]
fn signed_add_to_stack_pointer_wraps_modulo_two_to_the_sixteen() {
    let mut emulator = initialize_emulator();
    emulator.cpu.registers.stack_pointer = 0x0000;
    write_byte(&mut emulator.cpu.memory, 0x0000, 0xF8);
    write_byte(&mut emulator.cpu.memory, 0x0001, 0xFE);
    step(&mut emulator);
    assert_eq!(emulator.cpu.registers.h, 0xFF);
    assert_eq!(emulator.cpu.registers.l, 0xFE);
    assert_eq!(emulator.cpu.registers.stack_pointer, 0x0000);
}
