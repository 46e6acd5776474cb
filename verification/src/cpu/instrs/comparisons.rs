//! The comparisons of A with a second byte.
use crate::cpu::alu::alu_sub;
use crate::cpu::alu::sub8;
use crate::cpu::alu::AluOp;
use crate::cpu::cpu::CpuView;
use crate::cpu::cpu::CPU;
use crate::cpu::instrs::general::alu_n;
use crate::cpu::instrs::general::alu_x;
use crate::cpu::instrs::utils::Operand;
use crate::cpu::regs::Registers;
use vstd::prelude::*;

verus! {

/// Helper to compare registers: sets the flags of `x - y`.
pub fn compare_registers(registers: &mut Registers, x: u8, y: u8)
    ensures
        *final(registers) == old(registers).with_flags(
            x == y,
            true,
            x % 16 < y % 16,
            x < y,
        ),
        final(registers).wf(),
{
    let compared = alu_sub(x, y, false);
    registers.set_flags(compared.z, true, compared.h, compared.c);
}

/// **0xB8 ~ 0xBF** - *CP X* - Compares a with X
pub fn cp(x: u8, cpu: &mut CPU) -> (cycles: u8)
    requires
        old(cpu).wf(),
    ensures
        final(cpu).wf(),
        final(cpu)@ == old(cpu)@.alu(AluOp::Cp, x),
        cycles == 4,
{
    proof {
        reveal(CpuView::alu);
    }
    let y: u8 = cpu.regs.a;
    compare_registers(&mut cpu.regs, y, x);
    4
}

/// **0xBE** - *CP (hl)* - Compare a with (hl)
pub fn cp_phl(cpu: &mut CPU) -> (cycles: u8)
    requires
        old(cpu).wf(),
    ensures
        final(cpu).wf(),
        (final(cpu)@, cycles) == old(cpu)@.alu_operand(AluOp::Cp, Operand::HL),
{
    proof {
        reveal(CpuView::alu_operand);
        reveal(CpuView::alu);
    }
    alu_x(cpu, AluOp::Cp, Operand::HL)
}

/// **0xFE** - *CP #* - Compare a with #
pub fn cp_n(cpu: &mut CPU) -> (cycles: u8)
    requires
        old(cpu).wf(),
    ensures
        final(cpu).wf(),
        (final(cpu)@, cycles) == old(cpu)@.alu_immediate(AluOp::Cp),
{
    proof {
        reveal(CpuView::alu_immediate);
        reveal(CpuView::alu);
    }
    alu_n(cpu, AluOp::Cp)
}

} // verus!
