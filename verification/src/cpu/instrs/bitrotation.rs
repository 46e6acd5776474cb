//! Operations to rotate and shift bits.
use crate::cpu::alu::shift;
use crate::cpu::alu::shift8;
use crate::cpu::alu::ShiftOp;
use crate::cpu::cpu::CpuView;
use crate::cpu::cpu::CPU;
use crate::cpu::instrs::utils::read_operand;
use crate::cpu::instrs::utils::write_operand;
use crate::cpu::instrs::utils::Operand;
use vstd::prelude::*;

verus! {

impl CpuView {
    /// A rotation or shift of an operand. Z is set for a result of zero, N
    /// and H are cleared, C takes the bit that leaves the byte.
    #[verifier::opaque]
    pub open spec fn shifted(self, op: ShiftOp, operand: Operand) -> (CpuView, u8) {
        (
            self.with_operand(
                operand,
                shift8(op, self.operand(operand), self.regs.flag_c()).value,
            ).with_flags(
                shift8(op, self.operand(operand), self.regs.flag_c()).z,
                false,
                false,
                shift8(op, self.operand(operand), self.regs.flag_c()).c,
            ),
            operand.cycles(8, 16),
        )
    }

    /// A rotation of A by one of the short opcodes, which clear Z.
    #[verifier::opaque]
    pub open spec fn shifted_a(self, op: ShiftOp) -> (CpuView, u8) {
        (
            self.with_a(shift8(op, self.regs.a, self.regs.flag_c()).value).with_flags(
                false,
                false,
                false,
                shift8(op, self.regs.a, self.regs.flag_c()).c,
            ),
            4,
        )
    }
}

/// **0xCB 0x00 ~ 0x3F** - A rotation or shift of X
pub fn shift_x(cpu: &mut CPU, op: ShiftOp, operand: Operand) -> (cycles: u8)
    requires
        old(cpu).wf(),
    ensures
        final(cpu).wf(),
        (final(cpu)@, cycles) == old(cpu)@.shifted(op, operand),
{
    proof {
        reveal(CpuView::shifted);
    }
    let current_value: u8 = read_operand(cpu, operand);
    let result = shift(op, current_value, cpu.regs.get_flag_c());
    write_operand(cpu, operand, result.value);
    cpu.regs.set_flags(result.z, false, false, result.c);
    match operand {
        Operand::HL => 16,
        _ => 8,
    }
}

/// A rotation of A by one of the short opcodes.
pub fn shift_a(cpu: &mut CPU, op: ShiftOp) -> (cycles: u8)
    requires
        old(cpu).wf(),
    ensures
        final(cpu).wf(),
        (final(cpu)@, cycles) == old(cpu)@.shifted_a(op),
{
    proof {
        reveal(CpuView::shifted_a);
    }
    let result = shift(op, cpu.regs.a, cpu.regs.get_flag_c());
    cpu.regs.a = result.value;
    cpu.regs.set_flags(false, false, false, result.c);
    4
}

/// **0x17** - *RLA* - Rotate a left through Carry.
pub fn rla(cpu: &mut CPU) -> (cycles: u8)
    requires
        old(cpu).wf(),
    ensures
        final(cpu).wf(),
        (final(cpu)@, cycles) == old(cpu)@.shifted_a(ShiftOp::Rl),
{
    proof {
        reveal(CpuView::shifted_a);
    }
    shift_a(cpu, ShiftOp::Rl)
}

/// **0x1F** - *RRA* - Rotate a right through Carry.
pub fn rra(cpu: &mut CPU) -> (cycles: u8)
    requires
        old(cpu).wf(),
    ensures
        final(cpu).wf(),
        (final(cpu)@, cycles) == old(cpu)@.shifted_a(ShiftOp::Rr),
{
    proof {
        reveal(CpuView::shifted_a);
    }
    shift_a(cpu, ShiftOp::Rr)
}

/// **0x07** - *RLCA* - Rotate a left. Bit 7 into Carry.
pub fn rlca(cpu: &mut CPU) -> (cycles: u8)
    requires
        old(cpu).wf(),
    ensures
        final(cpu).wf(),
        (final(cpu)@, cycles) == old(cpu)@.shifted_a(ShiftOp::Rlc),
{
    proof {
        reveal(CpuView::shifted_a);
    }
    shift_a(cpu, ShiftOp::Rlc)
}

/// **0x0F** - *RRCA* - Rotate a right. Bit 0 into Carry.
pub fn rrca(cpu: &mut CPU) -> (cycles: u8)
    requires
        old(cpu).wf(),
    ensures
        final(cpu).wf(),
        (final(cpu)@, cycles) == old(cpu)@.shifted_a(ShiftOp::Rrc),
{
    proof {
        reveal(CpuView::shifted_a);
    }
    shift_a(cpu, ShiftOp::Rrc)
}

/// **0xCB 0x16** - *RL (hl)* - Rotate (hl) left through Carry.
pub fn rl_phl(cpu: &mut CPU) -> (cycles: u8)
    requires
        old(cpu).wf(),
    ensures
        final(cpu).wf(),
        (final(cpu)@, cycles) == old(cpu)@.shifted(ShiftOp::Rl, Operand::HL),
{
    proof {
        reveal(CpuView::shifted);
    }
    shift_x(cpu, ShiftOp::Rl, Operand::HL)
}

/// **0xCB 0x1E** - *RR (hl)* - Rotate (hl) right through Carry.
pub fn rr_phl(cpu: &mut CPU) -> (cycles: u8)
    requires
        old(cpu).wf(),
    ensures
        final(cpu).wf(),
        (final(cpu)@, cycles) == old(cpu)@.shifted(ShiftOp::Rr, Operand::HL),
{
    proof {
        reveal(CpuView::shifted);
    }
    shift_x(cpu, ShiftOp::Rr, Operand::HL)
}

/// **0xCB 0x06** - *RLC (hl)* - Rotate (hl) left. Bit 7 into Carry.
pub fn rlc_phl(cpu: &mut CPU) -> (cycles: u8)
    requires
        old(cpu).wf(),
    ensures
        final(cpu).wf(),
        (final(cpu)@, cycles) == old(cpu)@.shifted(ShiftOp::Rlc, Operand::HL),
{
    proof {
        reveal(CpuView::shifted);
    }
    shift_x(cpu, ShiftOp::Rlc, Operand::HL)
}

/// **0xCB 0x0E** - *RRC (hl)* - Rotate (hl) right. Bit 0 into Carry.
pub fn rrc_phl(cpu: &mut CPU) -> (cycles: u8)
    requires
        old(cpu).wf(),
    ensures
        final(cpu).wf(),
        (final(cpu)@, cycles) == old(cpu)@.shifted(ShiftOp::Rrc, Operand::HL),
{
    proof {
        reveal(CpuView::shifted);
    }
    shift_x(cpu, ShiftOp::Rrc, Operand::HL)
}

} // verus!
