//! The bitwise instructions on A.
use crate::cpu::alu::AluOp;
use crate::cpu::cpu::CpuView;
use crate::cpu::cpu::CPU;
use crate::cpu::instrs::general::alu_n;
use crate::cpu::instrs::general::alu_x;
use crate::cpu::instrs::utils::Operand;
use crate::cpu::regs::Registers;
use vstd::prelude::*;

verus! {

/// Helper to XOR something into A.
pub fn reg_xor(registers: &mut Registers, y_val: u8)
    ensures
        *final(registers) == old(registers).alu(AluOp::Xor, y_val),
        final(registers).a == old(registers).a ^ y_val,
        final(registers).wf(),
{
    registers.apply(AluOp::Xor, y_val);
}

/// **0xA8 ~ 0xAF** - *XOR X* - Xor X with a into a
pub fn xor(x: u8, cpu: &mut CPU) -> (cycles: u8)
    requires
        old(cpu).wf(),
    ensures
        final(cpu).wf(),
        final(cpu)@ == old(cpu)@.alu(AluOp::Xor, x),
        cycles == 4,
{
    proof {
        reveal(CpuView::alu);
    }
    reg_xor(&mut cpu.regs, x);
    4
}

/// **0xAE** - *XOR (hl)* - Xor \*hl with a into a
pub fn xor_hl(cpu: &mut CPU) -> (cycles: u8)
    requires
        old(cpu).wf(),
    ensures
        final(cpu).wf(),
        (final(cpu)@, cycles) == old(cpu)@.alu_operand(AluOp::Xor, Operand::HL),
{
    proof {
        reveal(CpuView::alu_operand);
        reveal(CpuView::alu);
    }
    alu_x(cpu, AluOp::Xor, Operand::HL)
}

/// **0xEE** - *XOR #* - Xor # with a into a
pub fn xor_n(cpu: &mut CPU) -> (cycles: u8)
    requires
        old(cpu).wf(),
    ensures
        final(cpu).wf(),
        (final(cpu)@, cycles) == old(cpu)@.alu_immediate(AluOp::Xor),
{
    proof {
        reveal(CpuView::alu_immediate);
        reveal(CpuView::alu);
    }
    alu_n(cpu, AluOp::Xor)
}

/// Helper to OR something into A.
pub fn reg_or(registers: &mut Registers, y_val: u8)
    ensures
        *final(registers) == old(registers).alu(AluOp::Or, y_val),
        final(registers).a == old(registers).a | y_val,
        final(registers).wf(),
{
    registers.apply(AluOp::Or, y_val);
}

/// **0xB0 ~ 0xB7** - *OR X* - Or X with a into a
pub fn or(x: u8, cpu: &mut CPU) -> (cycles: u8)
    requires
        old(cpu).wf(),
    ensures
        final(cpu).wf(),
        final(cpu)@ == old(cpu)@.alu(AluOp::Or, x),
        cycles == 4,
{
    proof {
        reveal(CpuView::alu);
    }
    reg_or(&mut cpu.regs, x);
    4
}

/// **0xB6** - *OR (hl)* - Or \*hl with a into a
pub fn or_phl(cpu: &mut CPU) -> (cycles: u8)
    requires
        old(cpu).wf(),
    ensures
        final(cpu).wf(),
        (final(cpu)@, cycles) == old(cpu)@.alu_operand(AluOp::Or, Operand::HL),
{
    proof {
        reveal(CpuView::alu_operand);
        reveal(CpuView::alu);
    }
    alu_x(cpu, AluOp::Or, Operand::HL)
}

/// **0xF6** - *OR #* - Or # with a into a
pub fn or_n(cpu: &mut CPU) -> (cycles: u8)
    requires
        old(cpu).wf(),
    ensures
        final(cpu).wf(),
        (final(cpu)@, cycles) == old(cpu)@.alu_immediate(AluOp::Or),
{
    proof {
        reveal(CpuView::alu_immediate);
        reveal(CpuView::alu);
    }
    alu_n(cpu, AluOp::Or)
}

/// Helper to AND something into A.
pub fn reg_and(registers: &mut Registers, y_val: u8)
    ensures
        *final(registers) == old(registers).alu(AluOp::And, y_val),
        final(registers).a == old(registers).a & y_val,
        final(registers).wf(),
{
    registers.apply(AluOp::And, y_val);
}

/// **0xA0 ~ 0xA7** - *AND X* - And X with a into a
pub fn and(x: u8, cpu: &mut CPU) -> (cycles: u8)
    requires
        old(cpu).wf(),
    ensures
        final(cpu).wf(),
        final(cpu)@ == old(cpu)@.alu(AluOp::And, x),
        cycles == 4,
{
    proof {
        reveal(CpuView::alu);
    }
    reg_and(&mut cpu.regs, x);
    4
}

/// **0xA6** - *AND (hl)* - And \*hl with a into a
pub fn and_phl(cpu: &mut CPU) -> (cycles: u8)
    requires
        old(cpu).wf(),
    ensures
        final(cpu).wf(),
        (final(cpu)@, cycles) == old(cpu)@.alu_operand(AluOp::And, Operand::HL),
{
    proof {
        reveal(CpuView::alu_operand);
        reveal(CpuView::alu);
    }
    alu_x(cpu, AluOp::And, Operand::HL)
}

/// **0xE6** - *AND #* - And # with a into a
pub fn and_n(cpu: &mut CPU) -> (cycles: u8)
    requires
        old(cpu).wf(),
    ensures
        final(cpu).wf(),
        (final(cpu)@, cycles) == old(cpu)@.alu_immediate(AluOp::And),
{
    proof {
        reveal(CpuView::alu_immediate);
        reveal(CpuView::alu);
    }
    alu_n(cpu, AluOp::And)
}

} // verus!
