//! The processor: its registers, its interrupt lines and its instruction set.
pub mod alu;
pub mod cpu;
pub mod instrs;
pub mod interrupts;
pub mod regs;
