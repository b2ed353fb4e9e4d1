//! Cycle-exact execution core of a classic 8-bit handheld game console.
//!
//! The crate models the register file (eight 8-bit registers grouped into
//! four 16-bit pairs, program counter and stack pointer), a flat 16-bit
//! address space, the base-table opcode dispatch engine with per-instruction
//! machine-cycle accounting, and the interrupt controller that diverts
//! control into fixed service routines.

pub mod apu;
pub mod cpu;
pub mod emulator;
pub mod mmu;
pub mod utils;
