//! The arithmetic instructions: additions and subtractions on A, and the
//! 16-bit additions.
use crate::cpu::alu::alu;
use crate::cpu::alu::alu8;
use crate::cpu::alu::AluOp;
use crate::cpu::cpu::add16;
use crate::cpu::cpu::signed;
use crate::cpu::cpu::CpuView;
use crate::cpu::cpu::CPU;
use crate::cpu::instrs::bitwise::and;
use crate::cpu::instrs::bitwise::or;
use crate::cpu::instrs::bitwise::xor;
use crate::cpu::instrs::comparisons::cp;
use crate::cpu::instrs::utils::get_n;
use crate::cpu::instrs::utils::offset_by;
use crate::cpu::instrs::utils::read_operand;
use crate::cpu::instrs::utils::Operand;
use crate::cpu::instrs::utils::Pair;
use crate::cpu::regs::Registers;
use vstd::prelude::*;

verus! {

impl Registers {
    /// The registers after an operation of A with the byte `val`: A holds
    /// the result and F its flags.
    pub open spec fn alu(self, op: AluOp, val: u8) -> Registers {
        Registers {
            a: alu8(op, self.a, val, self.flag_c()).value,
            f: alu8(op, self.a, val, self.flag_c()).flags(),
            ..self
        }
    }

    /// Does an operation of A with the byte `val`.
    pub fn apply(&mut self, op: AluOp, val: u8)
        ensures
            *final(self) == old(self).alu(op, val),
            final(self).wf(),
    {
        let result = alu(op, self.a, val, self.get_flag_c());
        self.a = result.value;
        self.set_flags(result.z, result.n, result.h, result.c);
    }
}

impl CpuView {
    /// The state after an operation of A with the byte `val`.
    #[verifier::opaque]
    pub open spec fn alu(self, op: AluOp, val: u8) -> CpuView {
        self.with_regs(self.regs.alu(op, val))
    }

    /// An operation of A with an operand.
    #[verifier::opaque]
    pub open spec fn alu_operand(self, op: AluOp, src: Operand) -> (CpuView, u8) {
        (self.alu(op, self.operand(src)), src.cycles(4, 8))
    }

    /// An operation of A with the byte that follows the opcode.
    #[verifier::opaque]
    pub open spec fn alu_immediate(self, op: AluOp) -> (CpuView, u8) {
        (self.advanced(1).alu(op, self.immediate()), 8)
    }

    /// ADD HL,rr: `val` is added to HL. N is cleared, H is the carry out of
    /// bit 11 and C the carry out of bit 15; Z stays.
    #[verifier::opaque]
    pub open spec fn add_hl(self, val: u16) -> (CpuView, u8) {
        (
            self.with_pair(Pair::HL, add16(self.regs.hl(), val as int)).with_flags(
                self.regs.flag_z(),
                false,
                self.regs.hl() % 0x1000 + val % 0x1000 > 0xFFF,
                self.regs.hl() + val > 0xFFFF,
            ),
            8,
        )
    }

    /// ADD SP,n: the signed byte that follows the opcode is added to the
    /// stack pointer.
    #[verifier::opaque]
    pub open spec fn add_sp(self) -> (CpuView, u8) {
        (
            self.advanced(1).with_sp(
                add16(self.regs.sp, signed(self.immediate())),
            ).with_offset_flags(self.regs.sp, self.immediate()),
            16,
        )
    }
}

/// An operation of A with an operand.
pub fn alu_x(cpu: &mut CPU, op: AluOp, src: Operand) -> (cycles: u8)
    requires
        old(cpu).wf(),
    ensures
        final(cpu).wf(),
        (final(cpu)@, cycles) == old(cpu)@.alu_operand(op, src),
{
    proof {
        reveal(CpuView::alu_operand);
        reveal(CpuView::alu);
    }
    let value: u8 = read_operand(cpu, src);
    match op {
        AluOp::Sub => {
            self::sub(value, cpu);
        },
        AluOp::And => {
            and(value, cpu);
        },
        AluOp::Xor => {
            xor(value, cpu);
        },
        AluOp::Or => {
            or(value, cpu);
        },
        AluOp::Cp => {
            cp(value, cpu);
        },
        _ => {
            cpu.regs.apply(op, value);
        },
    }
    match src {
        Operand::HL => 8,
        _ => 4,
    }
}

/// An operation of A with the byte that follows the opcode.
pub fn alu_n(cpu: &mut CPU, op: AluOp) -> (cycles: u8)
    requires
        old(cpu).wf(),
    ensures
        final(cpu).wf(),
        (final(cpu)@, cycles) == old(cpu)@.alu_immediate(op),
{
    proof {
        reveal(CpuView::alu_immediate);
        reveal(CpuView::alu);
    }
    let value: u8 = get_n(cpu);
    cpu.regs.apply(op, value);
    8
}

/// **0x19 ~ 0x39** - *ADD HL,X* - Add XX to HL.
pub fn add_hl_x(val: u16, cpu: &mut CPU) -> (cycles: u8)
    requires
        old(cpu).wf(),
    ensures
        final(cpu).wf(),
        (final(cpu)@, cycles) == old(cpu)@.add_hl(val),
{
    proof {
        reveal(CpuView::add_hl);
    }
    let prev_value: u16 = cpu.regs.get_hl();
    let zero: bool = cpu.regs.get_flag_z();
    cpu.regs.set_hl(prev_value.wrapping_add(val));
    cpu.regs.set_flags(
        zero,
        false,
        (val % 0x1000) + (prev_value % 0x1000) > 0xFFF,
        (prev_value as u32) + (val as u32) > 0xFFFF,
    );
    8
}

/// **0x90 ~ 0x95** - *SUB A,X* - Subtract X from A.
pub fn sub(x: u8, cpu: &mut CPU) -> (cycles: u8)
    requires
        old(cpu).wf(),
    ensures
        final(cpu).wf(),
        final(cpu)@ == old(cpu)@.alu(AluOp::Sub, x),
        cycles == 4,
{
    proof {
        reveal(CpuView::alu);
    }
    cpu.regs.apply(AluOp::Sub, x);
    4
}

/// After an operation of A with a byte, A holds the result and the four
/// flags read as the operation gives them: Z for a result of zero (for a
/// comparison, for equal bytes), N for a subtraction, H and C as the carries
/// or borrows say; the low four bits of F are zero.
pub proof fn lemma_alu_leaves_flags(cpu: CpuView, op: AluOp, val: u8)
    ensures
        cpu.alu(op, val).regs.a == alu8(op, cpu.regs.a, val, cpu.regs.flag_c()).value,
        cpu.alu(op, val).regs.flag_z() == alu8(op, cpu.regs.a, val, cpu.regs.flag_c()).z,
        cpu.alu(op, val).regs.flag_n() == alu8(op, cpu.regs.a, val, cpu.regs.flag_c()).n,
        cpu.alu(op, val).regs.flag_h() == alu8(op, cpu.regs.a, val, cpu.regs.flag_c()).h,
        cpu.alu(op, val).regs.flag_c() == alu8(op, cpu.regs.a, val, cpu.regs.flag_c()).c,
        cpu.alu(op, val).regs.wf(),
        cpu.alu(op, val).mem == cpu.mem,
{
    reveal(CpuView::alu);
    let result = alu8(op, cpu.regs.a, val, cpu.regs.flag_c());
    crate::cpu::regs::lemma_flags_byte(result.z, result.n, result.h, result.c);
}

/// **0xC6** - *ADD a,#* - Add # to a.
pub fn add_a_n(cpu: &mut CPU) -> (cycles: u8)
    requires
        old(cpu).wf(),
    ensures
        final(cpu).wf(),
        (final(cpu)@, cycles) == old(cpu)@.alu_immediate(AluOp::Add),
{
    proof {
        reveal(CpuView::alu_immediate);
        reveal(CpuView::alu);
    }
    alu_n(cpu, AluOp::Add)
}

/// **0x86** - *ADD (hl)* - Add \*hl to a.
pub fn add_a_phl(cpu: &mut CPU) -> (cycles: u8)
    requires
        old(cpu).wf(),
    ensures
        final(cpu).wf(),
        (final(cpu)@, cycles) == old(cpu)@.alu_operand(AluOp::Add, Operand::HL),
{
    proof {
        reveal(CpuView::alu_operand);
        reveal(CpuView::alu);
    }
    alu_x(cpu, AluOp::Add, Operand::HL)
}

/// **0xD6** - *SUB a,#* - Subtract # from a.
pub fn sub_a_n(cpu: &mut CPU) -> (cycles: u8)
    requires
        old(cpu).wf(),
    ensures
        final(cpu).wf(),
        (final(cpu)@, cycles) == old(cpu)@.alu_immediate(AluOp::Sub),
{
    proof {
        reveal(CpuView::alu_immediate);
        reveal(CpuView::alu);
    }
    alu_n(cpu, AluOp::Sub)
}

/// **0xCE** - *ADC a,#* - Add # + Carry flag to a.
pub fn adc_a_n(cpu: &mut CPU) -> (cycles: u8)
    requires
        old(cpu).wf(),
    ensures
        final(cpu).wf(),
        (final(cpu)@, cycles) == old(cpu)@.alu_immediate(AluOp::Adc),
{
    proof {
        reveal(CpuView::alu_immediate);
        reveal(CpuView::alu);
    }
    alu_n(cpu, AluOp::Adc)
}

/// **0x8E** - *ADC a,(hl)* - Add \*hl + Carry flag to a.
pub fn adc_a_phl(cpu: &mut CPU) -> (cycles: u8)
    requires
        old(cpu).wf(),
    ensures
        final(cpu).wf(),
        (final(cpu)@, cycles) == old(cpu)@.alu_operand(AluOp::Adc, Operand::HL),
{
    proof {
        reveal(CpuView::alu_operand);
        reveal(CpuView::alu);
    }
    alu_x(cpu, AluOp::Adc, Operand::HL)
}

/// **0xE8** - *ADD sp,#S* - Add signed value # to sp.
pub fn add_sp_ns(cpu: &mut CPU) -> (cycles: u8)
    requires
        old(cpu).wf(),
    ensures
        final(cpu).wf(),
        (final(cpu)@, cycles) == old(cpu)@.add_sp(),
{
    proof {
        reveal(CpuView::add_sp);
    }
    let prev_value: u16 = cpu.regs.sp;
    let offset: u8 = get_n(cpu);
    cpu.regs.sp = offset_by(prev_value, offset);
    cpu.regs.set_flags(
        false,
        false,
        (prev_value % 16) + (offset as u16 % 16) > 0xF,
        (prev_value % 256) + offset as u16 > 0xFF,
    );
    16
}

/// **0x96** - *SUB (hl)* - Subtract \*hl from a.
pub fn sub_phl(cpu: &mut CPU) -> (cycles: u8)
    requires
        old(cpu).wf(),
    ensures
        final(cpu).wf(),
        (final(cpu)@, cycles) == old(cpu)@.alu_operand(AluOp::Sub, Operand::HL),
{
    proof {
        reveal(CpuView::alu_operand);
        reveal(CpuView::alu);
    }
    alu_x(cpu, AluOp::Sub, Operand::HL)
}

/// **0x9E** - *SBC a,(hl)* - Subtract (hl) + Carry flag from a.
pub fn sbc_phl(cpu: &mut CPU) -> (cycles: u8)
    requires
        old(cpu).wf(),
    ensures
        final(cpu).wf(),
        (final(cpu)@, cycles) == old(cpu)@.alu_operand(AluOp::Sbc, Operand::HL),
{
    proof {
        reveal(CpuView::alu_operand);
        reveal(CpuView::alu);
    }
    alu_x(cpu, AluOp::Sbc, Operand::HL)
}

/// **0xDE** - *SBC n* - Subtract n + Carry from a.
pub fn sbc_n(cpu: &mut CPU) -> (cycles: u8)
    requires
        old(cpu).wf(),
    ensures
        final(cpu).wf(),
        (final(cpu)@, cycles) == old(cpu)@.alu_immediate(AluOp::Sbc),
{
    proof {
        reveal(CpuView::alu_immediate);
        reveal(CpuView::alu);
    }
    alu_n(cpu, AluOp::Sbc)
}

} // verus!
