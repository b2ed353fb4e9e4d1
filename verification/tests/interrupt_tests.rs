use gameboy_emulator::cpu::interrupts::{get_interrupt_isr, interrupts_fired, InterruptType};
use gameboy_emulator::emulator::{initialize_emulator, step};
use gameboy_emulator::mmu::{read_byte, write_byte};

#[test]
fn all_sources_pending_dispatches_vertical_blank_first() {
    let mut emulator = initialize_emulator();
    emulator.interrupts.enabled = 0x1F;
    emulator.interrupts.flags = 0x1F;
    emulator.cpu.interrupts.enabled = true;
    emulator.cpu.registers.program_counter = 0x1234;
    emulator.cpu.registers.stack_pointer = 0xFFFE;
    step(&mut emulator);
    assert_eq!(emulator.cpu.registers.program_counter, 0x0040);
    assert!(!emulator.cpu.interrupts.enabled);
    assert_eq!(emulator.interrupts.flags, 0x1E);
    assert_eq!(emulator.interrupts.enabled, 0x1F);
    assert_eq!(read_byte(&emulator.cpu.memory, 0xFFFD), 0x12);
    assert_eq!(read_byte(&emulator.cpu.memory, 0xFFFC), 0x34);
    assert_eq!(emulator.cpu.registers.stack_pointer, 0xFFFC);
    assert_eq!(emulator.cpu.clock.instruction_clock_cycles, 3);
}

#[test]
fn gate_unset_leaves_interrupt_registers_untouched() {
    let mut emulator = initialize_emulator();
    emulator.interrupts.enabled = 0x1F;
    emulator.interrupts.flags = 0x1F;
    emulator.cpu.interrupts.enabled = false;
    write_byte(&mut emulator.cpu.memory, 0x0000, 0x00);
    step(&mut emulator);
    assert_eq!(emulator.cpu.registers.program_counter, 0x0001);
    assert_eq!(emulator.cpu.clock.instruction_clock_cycles, 1);
    assert_eq!(emulator.interrupts.enabled, 0x1F);
    assert_eq!(emulator.interrupts.flags, 0x1F);
    assert!(!emulator.cpu.interrupts.enabled);
}

#[test]
fn nothing_pending_means_ordinary_dispatch() {
    let mut emulator = initialize_emulator();
    emulator.interrupts.enabled = 0x1F;
    emulator.interrupts.flags = 0x00;
    emulator.cpu.interrupts.enabled = true;
    write_byte(&mut emulator.cpu.memory, 0x0000, 0x00);
    step(&mut emulator);
    assert_eq!(emulator.cpu.registers.program_counter, 0x0001);
    assert!(emulator.cpu.interrupts.enabled);
    assert_eq!(emulator.interrupts.flags, 0x00);
}

#[test]
fn serial_link_wins_over_input_press() {
    let mut emulator = initialize_emulator();
    emulator.interrupts.enabled = 0x1F;
    emulator.interrupts.flags = 0x18;
    emulator.cpu.interrupts.enabled = true;
    emulator.cpu.registers.stack_pointer = 0xD000;
    step(&mut emulator);
    assert_eq!(emulator.cpu.registers.program_counter, 0x0058);
    assert_eq!(emulator.interrupts.flags, 0x10);
}

#[test]
fn masked_out_source_is_not_dispatched() {
    let mut emulator = initialize_emulator();
    emulator.interrupts.enabled = 0x02;
    emulator.interrupts.flags = 0x03;
    emulator.cpu.interrupts.enabled = true;
    emulator.cpu.registers.stack_pointer = 0xD000;
    step(&mut emulator);
    assert_eq!(emulator.cpu.registers.program_counter, 0x0048);
    assert_eq!(emulator.interrupts.flags, 0x01);
}

#[test]
fn bits_above_the_five_sources_are_ignored() {
    let mut emulator = initialize_emulator();
    emulator.interrupts.enabled = 0xE0;
    emulator.interrupts.flags = 0xE0;
    emulator.cpu.interrupts.enabled = true;
    write_byte(&mut emulator.cpu.memory, 0x0000, 0x00);
    step(&mut emulator);
    assert_eq!(emulator.cpu.registers.program_counter, 0x0001);
    assert!(emulator.cpu.interrupts.enabled);
    assert_eq!(emulator.interrupts.flags, 0xE0);
}

#[test]
fn lower_priority_source_is_serviced_on_a_later_tick() {
    let mut emulator = initialize_emulator();
    emulator.interrupts.enabled = 0x05;
    emulator.interrupts.flags = 0x05;
    emulator.cpu.interrupts.enabled = true;
    emulator.cpu.registers.stack_pointer = 0xD000;
    step(&mut emulator);
    assert_eq!(emulator.cpu.registers.program_counter, 0x0040);
    assert_eq!(emulator.interrupts.flags, 0x04);
    emulator.cpu.interrupts.enabled = true;
    step(&mut emulator);
    assert_eq!(emulator.cpu.registers.program_counter, 0x0050);
    assert_eq!(emulator.interrupts.flags, 0x00);
}

#[test]
fn fired_query_needs_both_masks_and_the_low_bits() {
    let mut emulator = initialize_emulator();
    emulator.interrupts.enabled = 0x10;
    emulator.interrupts.flags = 0x01;
    assert!(!interrupts_fired(&emulator));
    emulator.interrupts.flags = 0x11;
    assert!(interrupts_fired(&emulator));
}

#[test]
fn service_addresses_follow_priority_order() {
    assert_eq!(get_interrupt_isr(&InterruptType::VBlank), 0x40);
    assert_eq!(get_interrupt_isr(&InterruptType::LCDStatus), 0x48);
    assert_eq!(get_interrupt_isr(&InterruptType::TimerOverflow), 0x50);
    assert_eq!(get_interrupt_isr(&InterruptType::SerialLink), 0x58);
    assert_eq!(get_interrupt_isr(&InterruptType::JoypadPress), 0x60);
}
