//! The interrupt controller.
//!
//! Five sources, one bit each in the `enabled` and `flags` masks, in
//! fixed priority order from bit 0 (highest) to bit 4 (lowest). When the
//! global gate is set and an enabled source is pending, exactly one
//! source — the lowest-numbered pending bit — is dispatched per tick: the
//! gate is cleared, that pending bit alone is cleared, the program
//! counter is pushed, and control moves to the source's fixed service
//! address. Lower-priority sources stay pending for later ticks.

use vstd::prelude::*;
use crate::cpu::jumps;
use crate::cpu::CpuView;
use crate::emulator::{Emulator, EmulatorView};

verus! {

/// The five interrupt sources, in priority order, highest first.
#[derive(Clone, Copy, PartialEq, Eq, Structural)]
pub enum InterruptType {
    VBlank,
    LCDStatus,
    TimerOverflow,
    SerialLink,
    JoypadPress,
}

/// The interrupt-enable mask and the interrupt-pending mask. Only the
/// low five bits are meaningful, one per source.
#[derive(Clone, Copy, PartialEq, Eq, Structural, Debug)]
pub struct InterruptRegisters {
    pub enabled: u8,
    pub flags: u8,
}

/// The sources that are both enabled and pending.
pub open spec fn spec_fired_bits(interrupt_registers: InterruptRegisters) -> u8 {
    interrupt_registers.enabled & interrupt_registers.flags & 0x1F
}

/// The mask bit belonging to one source.
pub open spec fn spec_interrupt_bit(interrupt_type: InterruptType) -> u8 {
    match interrupt_type {
        InterruptType::VBlank => 0x01,
        InterruptType::LCDStatus => 0x02,
        InterruptType::TimerOverflow => 0x04,
        InterruptType::SerialLink => 0x08,
        InterruptType::JoypadPress => 0x10,
    }
}

/// The fixed service-routine address of one source.
pub open spec fn spec_isr_address(interrupt_type: InterruptType) -> u8 {
    match interrupt_type {
        InterruptType::VBlank => 0x40,
        InterruptType::LCDStatus => 0x48,
        InterruptType::TimerOverflow => 0x50,
        InterruptType::SerialLink => 0x58,
        InterruptType::JoypadPress => 0x60,
    }
}

/// The highest-priority source among the fired bits: the lowest-numbered
/// set bit, or none.
pub open spec fn spec_fired_interrupt(bits: u8) -> Option<InterruptType> {
    if bits & 0x01 != 0 {
        Some(InterruptType::VBlank)
    } else if bits & 0x02 != 0 {
        Some(InterruptType::LCDStatus)
    } else if bits & 0x04 != 0 {
        Some(InterruptType::TimerOverflow)
    } else if bits & 0x08 != 0 {
        Some(InterruptType::SerialLink)
    } else if bits & 0x10 != 0 {
        Some(InterruptType::JoypadPress)
    } else {
        None
    }
}

/// One controller evaluation at the start of a tick: the cycle counter is
/// zeroed; then, when the global gate is set and a source has fired, the
/// highest-priority one is dispatched — the global gate and its pending bit are
/// cleared and control transfers to its service address, consuming the
/// transfer's cycle cost. Otherwise nothing else changes.
pub open spec fn spec_interrupt_step(e: EmulatorView) -> EmulatorView {
    let c = CpuView { cycles: 0, ..e.cpu };
    let bits = spec_fired_bits(e.interrupts);
    if c.ime && bits != 0 {
        match spec_fired_interrupt(bits) {
            Some(interrupt_type) => EmulatorView {
                cpu: jumps::spec_restart(
                    CpuView { ime: false, ..c },
                    spec_isr_address(interrupt_type) as u16,
                ),
                interrupts: InterruptRegisters {
                    enabled: e.interrupts.enabled,
                    flags: e.interrupts.flags & !spec_interrupt_bit(interrupt_type),
                },
            },
            None => EmulatorView { cpu: c, ..e },
        }
    } else {
        EmulatorView { cpu: c, ..e }
    }
}

/// Whenever any source has fired, arbitration picks exactly one: the
/// lowest-numbered set bit. The chosen source's bit is set in `bits` and
/// every lower-numbered bit is clear, whatever the other bits hold.
pub proof fn lemma_arbitration_picks_lowest_set_bit(bits: u8)
    requires
        bits & 0x1F == bits,
        bits != 0,
    ensures
        spec_fired_interrupt(bits) is Some,
        spec_fired_interrupt(bits) matches Some(interrupt_type) ==> {
            &&& bits & spec_interrupt_bit(interrupt_type) != 0
            &&& bits & ((spec_interrupt_bit(interrupt_type) - 1) as u8) == 0
        },
{
    assert(bits & 0x1F == bits && bits != 0 && bits & 0x01 == 0 && bits & 0x02 == 0 && bits & 0x04
        == 0 && bits & 0x08 == 0 ==> bits & 0x10 != 0) by (bit_vector);
    assert(bits & 0x00 == 0) by (bit_vector);
    assert(bits & 0x01 == 0 && bits & 0x02 == 0 ==> bits & 0x03 == 0) by (bit_vector);
    assert(bits & 0x01 == 0 && bits & 0x02 == 0 && bits & 0x04 == 0 ==> bits & 0x07 == 0)
        by (bit_vector);
    assert(bits & 0x01 == 0 && bits & 0x02 == 0 && bits & 0x04 == 0 && bits & 0x08 == 0 ==> bits
        & 0x0F == 0) by (bit_vector);
}

fn get_fired_interrupt_bits(emulator: &Emulator) -> (bits: u8)
    ensures
        bits == spec_fired_bits(emulator.interrupts),
{
    emulator.interrupts.enabled & emulator.interrupts.flags & 0x1F
}

fn get_fired_interrupt(emulator: &Emulator) -> (fired: Option<InterruptType>)
    ensures
        fired == spec_fired_interrupt(spec_fired_bits(emulator.interrupts)),
{
    let fired_interrupt_bits = get_fired_interrupt_bits(emulator);
    if (fired_interrupt_bits & 0x01) != 0 {
        Some(InterruptType::VBlank)
    } else if (fired_interrupt_bits & 0x02) != 0 {
        Some(InterruptType::LCDStatus)
    } else if (fired_interrupt_bits & 0x04) != 0 {
        Some(InterruptType::TimerOverflow)
    } else if (fired_interrupt_bits & 0x08) != 0 {
        Some(InterruptType::SerialLink)
    } else if (fired_interrupt_bits & 0x10) != 0 {
        Some(InterruptType::JoypadPress)
    } else {
        None
    }
}

/// The fixed service-routine address of one source.
pub fn get_interrupt_isr(interrupt_type: &InterruptType) -> (isr_address: u8)
    ensures
        isr_address == spec_isr_address(*interrupt_type),
{
    match interrupt_type {
        InterruptType::VBlank => 0x40,
        InterruptType::LCDStatus => 0x48,
        InterruptType::TimerOverflow => 0x50,
        InterruptType::SerialLink => 0x58,
        InterruptType::JoypadPress => 0x60,
    }
}

fn turn_off_interrupt_flag(emulator: &mut Emulator, interrupt_type: &InterruptType)
    ensures
        final(emulator).interrupts.flags == old(emulator).interrupts.flags & !spec_interrupt_bit(
            *interrupt_type,
        ),
        final(emulator).interrupts.enabled == old(emulator).interrupts.enabled,
        final(emulator).cpu == old(emulator).cpu,
{
    let interrupt_registers = &mut emulator.interrupts;
    match interrupt_type {
        InterruptType::VBlank => interrupt_registers.flags = interrupt_registers.flags & !0x01,
        InterruptType::LCDStatus => interrupt_registers.flags = interrupt_registers.flags & !0x02,
        InterruptType::TimerOverflow => interrupt_registers.flags = interrupt_registers.flags
            & !0x04,
        InterruptType::SerialLink => interrupt_registers.flags = interrupt_registers.flags & !0x08,
        InterruptType::JoypadPress => interrupt_registers.flags = interrupt_registers.flags & !0x10,
    }
}

/// Whether any source is both enabled and pending.
pub fn interrupts_fired(emulator: &Emulator) -> (fired: bool)
    ensures
        fired == (spec_fired_bits(emulator.interrupts) != 0),
{
    let fired_interrupt_bits = get_fired_interrupt_bits(emulator);
    fired_interrupt_bits != 0
}

/// The controller's tick-start evaluation: zeroes the cycle counter and
/// dispatches the highest-priority fired source when the global gate
/// allows it.
pub fn step(emulator: &mut Emulator)
    requires
        old(emulator).wf(),
    ensures
        final(emulator).wf(),
        final(emulator)@ == spec_interrupt_step(old(emulator)@),
{
    emulator.cpu.clock.instruction_clock_cycles = 0;
    if emulator.cpu.interrupts.enabled && interrupts_fired(emulator) {
        let maybe_fired_interrupt = get_fired_interrupt(emulator);
        match maybe_fired_interrupt {
            Some(interrupt_type) => {
                emulator.cpu.interrupts.enabled = false;
                turn_off_interrupt_flag(emulator, &interrupt_type);
                let isr_address = get_interrupt_isr(&interrupt_type);
                jumps::restart(&mut emulator.cpu, isr_address as u16);
            },
            None => (),
        }
    }
}

} // verus!
