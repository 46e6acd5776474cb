//! Operations to shift bits.
use crate::cpu::alu::ShiftOp;
use crate::cpu::cpu::CpuView;
use crate::cpu::cpu::CPU;
use crate::cpu::instrs::bitrotation::shift_x;
use crate::cpu::instrs::utils::Operand;
use vstd::prelude::*;

verus! {

/// **0xCB 0x20 ~ 0x27** - *SLA X* - Shift X left into Carry. Bit 0 is set to 0.
pub fn sla_x(cpu: &mut CPU, operand: Operand) -> (cycles: u8)
    requires
        old(cpu).wf(),
    ensures
        final(cpu).wf(),
        (final(cpu)@, cycles) == old(cpu)@.shifted(ShiftOp::Sla, operand),
{
    proof {
        reveal(CpuView::shifted);
    }
    shift_x(cpu, ShiftOp::Sla, operand)
}

/// **0xCB 0x28 ~ 0x2F** - *SRA X* - Shift X right into Carry. Bit 7 stays.
pub fn sra_x(cpu: &mut CPU, operand: Operand) -> (cycles: u8)
    requires
        old(cpu).wf(),
    ensures
        final(cpu).wf(),
        (final(cpu)@, cycles) == old(cpu)@.shifted(ShiftOp::Sra, operand),
{
    proof {
        reveal(CpuView::shifted);
    }
    shift_x(cpu, ShiftOp::Sra, operand)
}

/// **0xCB 0x38 ~ 0x3F** - *SRL X* - Shift X right into Carry. Bit 7 is set to 0.
pub fn srl_x(cpu: &mut CPU, operand: Operand) -> (cycles: u8)
    requires
        old(cpu).wf(),
    ensures
        final(cpu).wf(),
        (final(cpu)@, cycles) == old(cpu)@.shifted(ShiftOp::Srl, operand),
{
    proof {
        reveal(CpuView::shifted);
    }
    shift_x(cpu, ShiftOp::Srl, operand)
}

} // verus!
