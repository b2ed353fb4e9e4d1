//! Call-style control transfers to fixed addresses.

use vstd::prelude::*;
use crate::cpu::{
    hi_byte, lo_byte, spec_charge_cycle, spec_write_mem, wrap16, CpuState, CpuView,
};
use crate::cpu::dec16;
use crate::cpu::microops;

verus! {

/// The effect of a restart: one internal cycle, then the program counter
/// is pushed (high byte first, descending addresses) and control moves to
/// `address`.
pub open spec fn spec_restart(s: CpuView, address: u16) -> CpuView {
    let t = spec_charge_cycle(s);
    let sp1 = wrap16(t.sp - 1);
    let t1 = spec_write_mem(CpuView { sp: sp1, ..t }, sp1, hi_byte(t.pc));
    let sp2 = wrap16(sp1 - 1);
    let t2 = spec_write_mem(CpuView { sp: sp2, ..t1 }, sp2, lo_byte(t.pc));
    CpuView { pc: address, ..t2 }
}

/// Pushes the current program counter and jumps to `address`: the
/// unconditional transfer that interrupt dispatch uses. Costs the push's
/// internal cycle and two stack writes.
pub fn restart(cpu_state: &mut CpuState, address: u16)
    requires
        old(cpu_state).wf(),
    ensures
        final(cpu_state).wf(),
        final(cpu_state)@ == spec_restart(old(cpu_state)@, address),
{
    microops::run_extra_machine_cycle(cpu_state);
    let pc = cpu_state.registers.program_counter;
    let sp1 = dec16(cpu_state.registers.stack_pointer);
    cpu_state.registers.stack_pointer = sp1;
    microops::store_byte_in_memory(cpu_state, sp1, (pc / 256) as u8);
    let sp2 = dec16(cpu_state.registers.stack_pointer);
    cpu_state.registers.stack_pointer = sp2;
    microops::store_byte_in_memory(cpu_state, sp2, (pc % 256) as u8);
    cpu_state.registers.program_counter = address;
}

} // verus!
