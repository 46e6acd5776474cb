//! Special instructions of the processor.
use crate::cpu::alu::alu8;
use crate::cpu::alu::alu_daa;
use crate::cpu::alu::bcd_value;
use crate::cpu::alu::carry_of;
use crate::cpu::alu::daa8;
use crate::cpu::alu::is_bcd;
use crate::cpu::alu::lemma_daa_after_add;
use crate::cpu::alu::lemma_daa_after_sub;
use crate::cpu::alu::AluOp;
use crate::cpu::cpu::CpuView;
use crate::cpu::cpu::CPU;
use crate::cpu::regs::lemma_flags_byte;
use vstd::prelude::*;

verus! {

impl CpuView {
    /// NOP
    #[verifier::opaque]
    pub open spec fn nop(self) -> (CpuView, u8) {
        (self, 4)
    }

    /// STOP: the processor stands still until a button is pressed.
    #[verifier::opaque]
    pub open spec fn stop(self) -> (CpuView, u8) {
        (CpuView { stopped: true, ..self }, 4)
    }

    /// HALT: the processor stands still until an interrupt occurs.
    #[verifier::opaque]
    pub open spec fn halt(self) -> (CpuView, u8) {
        (CpuView { halted: true, ..self }, 4)
    }

    /// DAA: A is adjusted to a packed decimal number.
    #[verifier::opaque]
    pub open spec fn daa(self) -> (CpuView, u8) {
        (
            self.with_a(
                daa8(self.regs.a, self.regs.flag_n(), self.regs.flag_h(), self.regs.flag_c()).value,
            ).with_flags(
                daa8(self.regs.a, self.regs.flag_n(), self.regs.flag_h(), self.regs.flag_c()).z,
                self.regs.flag_n(),
                false,
                daa8(self.regs.a, self.regs.flag_n(), self.regs.flag_h(), self.regs.flag_c()).c,
            ),
            4,
        )
    }

    /// CPL: A is complemented; N and H are set.
    #[verifier::opaque]
    pub open spec fn cpl(self) -> (CpuView, u8) {
        (
            self.with_a(!self.regs.a).with_flags(
                self.regs.flag_z(),
                true,
                true,
                self.regs.flag_c(),
            ),
            4,
        )
    }

    /// SCF: C is set; N and H are cleared.
    #[verifier::opaque]
    pub open spec fn scf(self) -> (CpuView, u8) {
        (self.with_flags(self.regs.flag_z(), false, false, true), 4)
    }

    /// CCF: C is complemented; N and H are cleared.
    #[verifier::opaque]
    pub open spec fn ccf(self) -> (CpuView, u8) {
        (self.with_flags(self.regs.flag_z(), false, false, !self.regs.flag_c()), 4)
    }

    /// DI: interrupts are disabled at once, and a pending enable is
    /// dropped.
    #[verifier::opaque]
    pub open spec fn di(self) -> (CpuView, u8) {
        (CpuView { interrupts_enabled: false, interrupts_countdown: -1i8, ..self }, 4)
    }

    /// EI: interrupts are enabled after the instruction that follows.
    #[verifier::opaque]
    pub open spec fn ei(self) -> (CpuView, u8) {
        (CpuView { interrupts_countdown: 1, ..self }, 4)
    }
}

/// DAA after an addition of two packed decimal numbers, with or without
/// carry, leaves in A the packed decimal sum, and C set exactly when the
/// sum is 100 or more. DAA after a subtraction leaves the packed decimal
/// difference, and C set exactly when the difference is below zero.
pub proof fn lemma_daa_adjusts(cpu: CpuView, op: AluOp, val: u8)
    requires
        is_bcd(cpu.regs.a),
        is_bcd(val),
        op == AluOp::Add || op == AluOp::Adc || op == AluOp::Sub || op == AluOp::Sbc,
    ensures
        ({
            let carry = carry_of(op != AluOp::Add && op != AluOp::Sub && cpu.regs.flag_c());
            let exact = if op == AluOp::Add || op == AluOp::Adc {
                bcd_value(cpu.regs.a) + bcd_value(val) + carry
            } else {
                bcd_value(cpu.regs.a) - bcd_value(val) - carry
            };
            let adjusted = cpu.alu(op, val).daa().0.regs;
            &&& is_bcd(adjusted.a)
            &&& bcd_value(adjusted.a) == exact % 100
            &&& adjusted.flag_c() <==> (exact >= 100 || exact < 0)
            &&& adjusted.flag_z() <==> adjusted.a == 0
            &&& !adjusted.flag_h()
        }),
{
    reveal(CpuView::alu);
    reveal(CpuView::daa);
    let carry = op != AluOp::Add && op != AluOp::Sub && cpu.regs.flag_c();
    let result = alu8(op, cpu.regs.a, val, cpu.regs.flag_c());
    lemma_flags_byte(result.z, result.n, result.h, result.c);
    let adjusted = daa8(result.value, result.n, result.h, result.c);
    lemma_flags_byte(adjusted.z, result.n, false, adjusted.c);
    if op == AluOp::Add || op == AluOp::Adc {
        lemma_daa_after_add(cpu.regs.a, val, carry);
    } else {
        lemma_daa_after_sub(cpu.regs.a, val, carry);
    }
}

/// **0x00** - *NOP* - No operation.
pub fn nop(cpu: &mut CPU) -> (cycles: u8)
    requires
        old(cpu).wf(),
    ensures
        final(cpu).wf(),
        (final(cpu)@, cycles) == old(cpu)@.nop(),
{
    proof {
        reveal(CpuView::nop);
    }
    4
}

/// **0x10** - *STOP* - Halt CPU & LCD display until button pressed.
pub fn stop(cpu: &mut CPU) -> (cycles: u8)
    requires
        old(cpu).wf(),
    ensures
        final(cpu).wf(),
        (final(cpu)@, cycles) == old(cpu)@.stop(),
{
    proof {
        reveal(CpuView::stop);
    }
    cpu.stopped = true;
    4
}

/// **0x27** - *DAA* - Convert to a Binary Coded Decimal
pub fn daa(cpu: &mut CPU) -> (cycles: u8)
    requires
        old(cpu).wf(),
    ensures
        final(cpu).wf(),
        (final(cpu)@, cycles) == old(cpu)@.daa(),
{
    proof {
        reveal(CpuView::daa);
    }
    let result = alu_daa(
        cpu.regs.a,
        cpu.regs.get_flag_n(),
        cpu.regs.get_flag_h(),
        cpu.regs.get_flag_c(),
    );
    cpu.regs.a = result.value;
    cpu.regs.set_flags(result.z, result.n, result.h, result.c);
    4
}

/// **0x2F** - *CPL* - Complement register a
pub fn cpl(cpu: &mut CPU) -> (cycles: u8)
    requires
        old(cpu).wf(),
    ensures
        final(cpu).wf(),
        (final(cpu)@, cycles) == old(cpu)@.cpl(),
{
    proof {
        reveal(CpuView::cpl);
    }
    let zero: bool = cpu.regs.get_flag_z();
    let carry: bool = cpu.regs.get_flag_c();
    cpu.regs.a = !cpu.regs.a;
    cpu.regs.set_flags(zero, true, true, carry);
    4
}

/// **0x37** - *SCF* - Set carry flag.
pub fn scf(cpu: &mut CPU) -> (cycles: u8)
    requires
        old(cpu).wf(),
    ensures
        final(cpu).wf(),
        (final(cpu)@, cycles) == old(cpu)@.scf(),
{
    proof {
        reveal(CpuView::scf);
    }
    let zero: bool = cpu.regs.get_flag_z();
    cpu.regs.set_flags(zero, false, false, true);
    4
}

/// **0x3F** - *CCF* - Complement carry.
pub fn ccf(cpu: &mut CPU) -> (cycles: u8)
    requires
        old(cpu).wf(),
    ensures
        final(cpu).wf(),
        (final(cpu)@, cycles) == old(cpu)@.ccf(),
{
    proof {
        reveal(CpuView::ccf);
    }
    let zero: bool = cpu.regs.get_flag_z();
    let new_flag: bool = !cpu.regs.get_flag_c();
    cpu.regs.set_flags(zero, false, false, new_flag);
    4
}

/// **0xF3** - *DI* - Disable interrupts
pub fn di(cpu: &mut CPU) -> (cycles: u8)
    requires
        old(cpu).wf(),
    ensures
        final(cpu).wf(),
        (final(cpu)@, cycles) == old(cpu)@.di(),
{
    proof {
        reveal(CpuView::di);
    }
    cpu.interrupts_countdown = -1;
    cpu.interrupts_enabled = false;
    4
}

/// **0xFB** - *EI* - Enable interrupts
pub fn ei(cpu: &mut CPU) -> (cycles: u8)
    requires
        old(cpu).wf(),
    ensures
        final(cpu).wf(),
        (final(cpu)@, cycles) == old(cpu)@.ei(),
{
    proof {
        reveal(CpuView::ei);
    }
    cpu.interrupts_countdown = 1;
    4
}

/// **0x76** - *HALT* - Halt the CPU until a interrupt occurs.
pub fn halt(cpu: &mut CPU) -> (cycles: u8)
    requires
        old(cpu).wf(),
    ensures
        final(cpu).wf(),
        (final(cpu)@, cycles) == old(cpu)@.halt(),
{
    proof {
        reveal(CpuView::halt);
    }
    cpu.halted = true;
    4
}

} // verus!
