//! The machine-state aggregate and the per-tick entry point.
//!
//! One tick is one interrupt-check-or-instruction-dispatch, run to
//! completion: the interrupt controller is consulted first, and only when
//! it performs no transfer is an opcode fetched. The cycle counter the
//! tick leaves behind is the timing signal collaborating subsystems
//! consume until the next tick.

use vstd::prelude::*;
use crate::cpu::interrupts;
use crate::cpu::interrupts::{spec_fired_bits, spec_interrupt_step, InterruptRegisters};
use crate::cpu::opcodes;
use crate::cpu::opcodes::spec_execute_opcode;
use crate::cpu::{CpuState, CpuView};

verus! {

/// Everything the execution core owns: the register file, clock and
/// memory behind `cpu`, and the interrupt controller's two masks.
pub struct Emulator {
    pub cpu: CpuState,
    pub interrupts: InterruptRegisters,
}

/// The mathematical model of an [`Emulator`].
#[verifier::ext_equal]
pub ghost struct EmulatorView {
    pub cpu: CpuView,
    pub interrupts: InterruptRegisters,
}

impl View for Emulator {
    type V = EmulatorView;

    open spec fn view(&self) -> EmulatorView {
        EmulatorView { cpu: self.cpu@, interrupts: self.interrupts }
    }
}

impl Emulator {
    pub open spec fn wf(&self) -> bool {
        self.cpu.wf()
    }
}

/// One full tick: the interrupt controller runs first (zeroing the cycle
/// counter); if it dispatched, no opcode is fetched, otherwise the
/// dispatch engine executes exactly one instruction.
pub open spec fn spec_step(e: EmulatorView) -> EmulatorView {
    let after_interrupts = spec_interrupt_step(e);
    if e.cpu.ime && spec_fired_bits(e.interrupts) != 0 {
        after_interrupts
    } else {
        EmulatorView { cpu: spec_execute_opcode(after_interrupts.cpu), ..after_interrupts }
    }
}

/// A machine at power-on: registers, counters and both interrupt masks
/// zero, the global gate disabled, memory cleared.
pub fn initialize_emulator() -> (emulator: Emulator)
    ensures
        emulator.wf(),
        emulator@.cpu.a == 0,
        emulator@.cpu.b == 0,
        emulator@.cpu.c == 0,
        emulator@.cpu.d == 0,
        emulator@.cpu.e == 0,
        emulator@.cpu.f == 0,
        emulator@.cpu.h == 0,
        emulator@.cpu.l == 0,
        emulator@.cpu.pc == 0,
        emulator@.cpu.sp == 0,
        !emulator@.cpu.ime,
        emulator@.cpu.cycles == 0,
        forall|i: int| 0 <= i < 0x10000 ==> emulator@.cpu.mem[i] == 0u8,
        emulator@.interrupts.enabled == 0,
        emulator@.interrupts.flags == 0,
{
    Emulator {
        cpu: crate::cpu::initialize_cpu(),
        interrupts: InterruptRegisters { enabled: 0, flags: 0 },
    }
}

/// Performs one tick and leaves the final cycle count readable in the
/// clock.
pub fn step(emulator: &mut Emulator)
    requires
        old(emulator).wf(),
    ensures
        final(emulator).wf(),
        final(emulator)@ == spec_step(old(emulator)@),
{
    let will_dispatch = emulator.cpu.interrupts.enabled && interrupts::interrupts_fired(emulator);
    interrupts::step(emulator);
    if !will_dispatch {
        opcodes::execute_opcode(&mut emulator.cpu);
    }
}

/// With the global gate unset the interrupt controller performs no
/// transfer whatever the masks hold: the tick is ordinary opcode
/// dispatch, and the controller leaves the interrupt registers untouched.
pub proof fn lemma_gate_unset_tick_is_plain_dispatch(e: EmulatorView)
    requires
        !e.cpu.ime,
    ensures
        spec_step(e).interrupts == e.interrupts,
        spec_step(e).cpu == spec_execute_opcode(CpuView { cycles: 0, ..e.cpu }),
{
}

} // verus!
