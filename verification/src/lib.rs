//! An interpreter for the original monochrome Game Boy: the processor, the
//! memory bus with its cartridge mappers, the picture processor, the timer
//! and the sound channel state, all advanced in lockstep by a shared cycle
//! clock.
pub mod bits;
pub mod cpu;
pub mod gpu;
pub mod input;
pub mod io;
pub mod mem;
pub mod rom;
pub mod sound;
