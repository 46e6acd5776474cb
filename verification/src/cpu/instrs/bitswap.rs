//! Operations to swap the nibbles of a byte.
use crate::cpu::alu::ShiftOp;
use crate::cpu::cpu::CpuView;
use crate::cpu::cpu::CPU;
use crate::cpu::instrs::bitrotation::shift_x;
use crate::cpu::instrs::utils::Operand;
use vstd::prelude::*;

verus! {

/// **0xCB 0x30 ~ 0x37** - *SWAP X* - Swaps upper and lower nibbles of X.
pub fn swap_x(cpu: &mut CPU, operand: Operand) -> (cycles: u8)
    requires
        old(cpu).wf(),
    ensures
        final(cpu).wf(),
        (final(cpu)@, cycles) == old(cpu)@.shifted(ShiftOp::Swap, operand),
{
    proof {
        reveal(CpuView::shifted);
    }
    shift_x(cpu, ShiftOp::Swap, operand)
}

/// **0xCB 0x36** - *SWAP (hl)* - Swaps upper and lower nibbles of (hl).
pub fn swap_phl(cpu: &mut CPU) -> (cycles: u8)
    requires
        old(cpu).wf(),
    ensures
        final(cpu).wf(),
        (final(cpu)@, cycles) == old(cpu)@.shifted(ShiftOp::Swap, Operand::HL),
{
    proof {
        reveal(CpuView::shifted);
    }
    shift_x(cpu, ShiftOp::Swap, Operand::HL)
}

} // verus!
