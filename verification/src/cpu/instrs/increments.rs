//! Incrementing and decrementing registers and memory.
use crate::cpu::alu::add8;
use crate::cpu::alu::sub8;
use crate::cpu::cpu::add16;
use crate::cpu::cpu::CpuView;
use crate::cpu::cpu::CPU;
use crate::cpu::instrs::utils::read_operand;
use crate::cpu::instrs::utils::read_pair;
use crate::cpu::instrs::utils::write_operand;
use crate::cpu::instrs::utils::write_pair;
use crate::cpu::instrs::utils::Operand;
use crate::cpu::instrs::utils::Pair;
use crate::cpu::regs::Registers;
use vstd::prelude::*;

verus! {

impl CpuView {
    /// INC x: the operand is incremented. Z, N and H are those of the
    /// addition of 1; C stays.
    #[verifier::opaque]
    pub open spec fn inc8(self, operand: Operand) -> (CpuView, u8) {
        (
            self.with_operand(operand, add8(self.operand(operand), 1, false).value).with_flags(
                add8(self.operand(operand), 1, false).z,
                false,
                add8(self.operand(operand), 1, false).h,
                self.regs.flag_c(),
            ),
            operand.cycles(4, 12),
        )
    }

    /// DEC x: the operand is decremented. Z, N and H are those of the
    /// subtraction of 1; C stays.
    #[verifier::opaque]
    pub open spec fn dec8(self, operand: Operand) -> (CpuView, u8) {
        (
            self.with_operand(operand, sub8(self.operand(operand), 1, false).value).with_flags(
                sub8(self.operand(operand), 1, false).z,
                true,
                sub8(self.operand(operand), 1, false).h,
                self.regs.flag_c(),
            ),
            operand.cycles(4, 12),
        )
    }

    /// INC xx: a 16-bit register is incremented; the flags stay.
    #[verifier::opaque]
    pub open spec fn inc16(self, pair: Pair) -> (CpuView, u8) {
        (self.with_pair(pair, add16(self.pair(pair), 1)), 8)
    }

    /// DEC xx: a 16-bit register is decremented; the flags stay.
    #[verifier::opaque]
    pub open spec fn dec16(self, pair: Pair) -> (CpuView, u8) {
        (self.with_pair(pair, add16(self.pair(pair), -1)), 8)
    }
}

/// The flags of an addition or subtraction of 1, told from the result.
proof fn lemma_step_flags(val: u8)
    ensures
        add8(val, 1, false).value == vstd::wrapping::u8_specs::wrapping_add(val, 1),
        add8(val, 1, false).z == (add8(val, 1, false).value == 0),
        add8(val, 1, false).h == (add8(val, 1, false).value % 16 == 0),
        sub8(val, 1, false).value == vstd::wrapping::u8_specs::wrapping_sub(val, 1),
        sub8(val, 1, false).z == (sub8(val, 1, false).value == 0),
        sub8(val, 1, false).h == (sub8(val, 1, false).value % 16 == 0x0F),
{
}

/// Handles flags for increments: `x` is the value after the increment.
pub fn inc_flags(x: u8, registers: &mut Registers)
    ensures
        *final(registers) == old(registers).with_flags(
            x == 0,
            false,
            x % 16 == 0,
            old(registers).flag_c(),
        ),
        final(registers).wf(),
{
    let carry: bool = registers.get_flag_c();
    registers.set_flags(x == 0, false, x % 16 == 0, carry);
}

/// Handles flags for decrements: `x` is the value after the decrement.
pub fn dec_flags(x: u8, registers: &mut Registers)
    ensures
        *final(registers) == old(registers).with_flags(
            x == 0,
            true,
            x % 16 == 0x0F,
            old(registers).flag_c(),
        ),
        final(registers).wf(),
{
    let carry: bool = registers.get_flag_c();
    registers.set_flags(x == 0, true, x % 16 == 0x0F, carry);
}

/// *INC x* - Increment x
pub fn inc_x(cpu: &mut CPU, operand: Operand) -> (cycles: u8)
    requires
        old(cpu).wf(),
    ensures
        final(cpu).wf(),
        (final(cpu)@, cycles) == old(cpu)@.inc8(operand),
{
    proof {
        reveal(CpuView::inc8);
    }
    let value: u8 = read_operand(cpu, operand);
    let new_value: u8 = value.wrapping_add(1);
    proof {
        lemma_step_flags(value);
    }
    write_operand(cpu, operand, new_value);
    inc_flags(new_value, &mut cpu.regs);
    match operand {
        Operand::HL => 12,
        _ => 4,
    }
}

/// *DEC x* - Decrement x
pub fn dec_x(cpu: &mut CPU, operand: Operand) -> (cycles: u8)
    requires
        old(cpu).wf(),
    ensures
        final(cpu).wf(),
        (final(cpu)@, cycles) == old(cpu)@.dec8(operand),
{
    proof {
        reveal(CpuView::dec8);
    }
    let value: u8 = read_operand(cpu, operand);
    let new_value: u8 = value.wrapping_sub(1);
    proof {
        lemma_step_flags(value);
    }
    write_operand(cpu, operand, new_value);
    dec_flags(new_value, &mut cpu.regs);
    match operand {
        Operand::HL => 12,
        _ => 4,
    }
}

/// *INC xx* - Increment the 16-bit register xx
pub fn inc_xx(cpu: &mut CPU, pair: Pair) -> (cycles: u8)
    requires
        old(cpu).wf(),
    ensures
        final(cpu).wf(),
        (final(cpu)@, cycles) == old(cpu)@.inc16(pair),
{
    proof {
        reveal(CpuView::inc16);
    }
    let value: u16 = read_pair(cpu, pair).wrapping_add(1);
    write_pair(cpu, pair, value);
    8
}

/// *DEC xx* - Decrement the 16-bit register xx
pub fn dec_xx(cpu: &mut CPU, pair: Pair) -> (cycles: u8)
    requires
        old(cpu).wf(),
    ensures
        final(cpu).wf(),
        (final(cpu)@, cycles) == old(cpu)@.dec16(pair),
{
    proof {
        reveal(CpuView::dec16);
    }
    let value: u16 = read_pair(cpu, pair).wrapping_sub(1);
    write_pair(cpu, pair, value);
    8
}

/// **0x04** - *INC b* - Increment register b
pub fn inc_b(cpu: &mut CPU) -> (cycles: u8)
    requires
        old(cpu).wf(),
    ensures
        final(cpu).wf(),
        (final(cpu)@, cycles) == old(cpu)@.inc8(Operand::B),
{
    proof {
        reveal(CpuView::inc8);
    }
    inc_x(cpu, Operand::B)
}

/// **0x0C** - *INC c* - Increment register c
pub fn inc_c(cpu: &mut CPU) -> (cycles: u8)
    requires
        old(cpu).wf(),
    ensures
        final(cpu).wf(),
        (final(cpu)@, cycles) == old(cpu)@.inc8(Operand::C),
{
    proof {
        reveal(CpuView::inc8);
    }
    inc_x(cpu, Operand::C)
}

/// **0x14** - *INC d* - Increment register d
pub fn inc_d(cpu: &mut CPU) -> (cycles: u8)
    requires
        old(cpu).wf(),
    ensures
        final(cpu).wf(),
        (final(cpu)@, cycles) == old(cpu)@.inc8(Operand::D),
{
    proof {
        reveal(CpuView::inc8);
    }
    inc_x(cpu, Operand::D)
}

/// **0x1C** - *INC e* - Increment register e
pub fn inc_e(cpu: &mut CPU) -> (cycles: u8)
    requires
        old(cpu).wf(),
    ensures
        final(cpu).wf(),
        (final(cpu)@, cycles) == old(cpu)@.inc8(Operand::E),
{
    proof {
        reveal(CpuView::inc8);
    }
    inc_x(cpu, Operand::E)
}

/// **0x24** - *INC h* - Increment register h
pub fn inc_h(cpu: &mut CPU) -> (cycles: u8)
    requires
        old(cpu).wf(),
    ensures
        final(cpu).wf(),
        (final(cpu)@, cycles) == old(cpu)@.inc8(Operand::H),
{
    proof {
        reveal(CpuView::inc8);
    }
    inc_x(cpu, Operand::H)
}

/// **0x2C** - *INC l* - Increment register l
pub fn inc_l(cpu: &mut CPU) -> (cycles: u8)
    requires
        old(cpu).wf(),
    ensures
        final(cpu).wf(),
        (final(cpu)@, cycles) == old(cpu)@.inc8(Operand::L),
{
    proof {
        reveal(CpuView::inc8);
    }
    inc_x(cpu, Operand::L)
}

/// **0x3C** - *INC a* - Increment register a
pub fn inc_a(cpu: &mut CPU) -> (cycles: u8)
    requires
        old(cpu).wf(),
    ensures
        final(cpu).wf(),
        (final(cpu)@, cycles) == old(cpu)@.inc8(Operand::A),
{
    proof {
        reveal(CpuView::inc8);
    }
    inc_x(cpu, Operand::A)
}

/// **0x05** - *DEC b* - Decrement register b
pub fn dec_b(cpu: &mut CPU) -> (cycles: u8)
    requires
        old(cpu).wf(),
    ensures
        final(cpu).wf(),
        (final(cpu)@, cycles) == old(cpu)@.dec8(Operand::B),
{
    proof {
        reveal(CpuView::dec8);
    }
    dec_x(cpu, Operand::B)
}

/// **0x0D** - *DEC c* - Decrement register c
pub fn dec_c(cpu: &mut CPU) -> (cycles: u8)
    requires
        old(cpu).wf(),
    ensures
        final(cpu).wf(),
        (final(cpu)@, cycles) == old(cpu)@.dec8(Operand::C),
{
    proof {
        reveal(CpuView::dec8);
    }
    dec_x(cpu, Operand::C)
}

/// **0x15** - *DEC d* - Decrement register d
pub fn dec_d(cpu: &mut CPU) -> (cycles: u8)
    requires
        old(cpu).wf(),
    ensures
        final(cpu).wf(),
        (final(cpu)@, cycles) == old(cpu)@.dec8(Operand::D),
{
    proof {
        reveal(CpuView::dec8);
    }
    dec_x(cpu, Operand::D)
}

/// **0x1D** - *DEC e* - Decrement register e
pub fn dec_e(cpu: &mut CPU) -> (cycles: u8)
    requires
        old(cpu).wf(),
    ensures
        final(cpu).wf(),
        (final(cpu)@, cycles) == old(cpu)@.dec8(Operand::E),
{
    proof {
        reveal(CpuView::dec8);
    }
    dec_x(cpu, Operand::E)
}

/// **0x25** - *DEC h* - Decrement register h
pub fn dec_h(cpu: &mut CPU) -> (cycles: u8)
    requires
        old(cpu).wf(),
    ensures
        final(cpu).wf(),
        (final(cpu)@, cycles) == old(cpu)@.dec8(Operand::H),
{
    proof {
        reveal(CpuView::dec8);
    }
    dec_x(cpu, Operand::H)
}

/// **0x2D** - *DEC l* - Decrement register l
pub fn dec_l(cpu: &mut CPU) -> (cycles: u8)
    requires
        old(cpu).wf(),
    ensures
        final(cpu).wf(),
        (final(cpu)@, cycles) == old(cpu)@.dec8(Operand::L),
{
    proof {
        reveal(CpuView::dec8);
    }
    dec_x(cpu, Operand::L)
}

/// **0x3D** - *DEC a* - Decrement register a
pub fn dec_a(cpu: &mut CPU) -> (cycles: u8)
    requires
        old(cpu).wf(),
    ensures
        final(cpu).wf(),
        (final(cpu)@, cycles) == old(cpu)@.dec8(Operand::A),
{
    proof {
        reveal(CpuView::dec8);
    }
    dec_x(cpu, Operand::A)
}

/// **0x34** - *INC (hl)* - Increment \*hl
pub fn inc_phl(cpu: &mut CPU) -> (cycles: u8)
    requires
        old(cpu).wf(),
    ensures
        final(cpu).wf(),
        (final(cpu)@, cycles) == old(cpu)@.inc8(Operand::HL),
{
    proof {
        reveal(CpuView::inc8);
    }
    inc_x(cpu, Operand::HL)
}

/// **0x35** - *DEC (hl)* - Decrement \*hl
pub fn dec_phl(cpu: &mut CPU) -> (cycles: u8)
    requires
        old(cpu).wf(),
    ensures
        final(cpu).wf(),
        (final(cpu)@, cycles) == old(cpu)@.dec8(Operand::HL),
{
    proof {
        reveal(CpuView::dec8);
    }
    dec_x(cpu, Operand::HL)
}

/// **0x03** - *INC bc* - Increment register bc
pub fn inc_bc(cpu: &mut CPU) -> (cycles: u8)
    requires
        old(cpu).wf(),
    ensures
        final(cpu).wf(),
        (final(cpu)@, cycles) == old(cpu)@.inc16(Pair::BC),
{
    proof {
        reveal(CpuView::inc16);
    }
    inc_xx(cpu, Pair::BC)
}

/// **0x13** - *INC de* - Increment register de
pub fn inc_de(cpu: &mut CPU) -> (cycles: u8)
    requires
        old(cpu).wf(),
    ensures
        final(cpu).wf(),
        (final(cpu)@, cycles) == old(cpu)@.inc16(Pair::DE),
{
    proof {
        reveal(CpuView::inc16);
    }
    inc_xx(cpu, Pair::DE)
}

/// **0x23** - *INC hl* - Increment register hl
pub fn inc_hl(cpu: &mut CPU) -> (cycles: u8)
    requires
        old(cpu).wf(),
    ensures
        final(cpu).wf(),
        (final(cpu)@, cycles) == old(cpu)@.inc16(Pair::HL),
{
    proof {
        reveal(CpuView::inc16);
    }
    inc_xx(cpu, Pair::HL)
}

/// **0x33** - *INC sp* - Increment register sp
pub fn inc_sp(cpu: &mut CPU) -> (cycles: u8)
    requires
        old(cpu).wf(),
    ensures
        final(cpu).wf(),
        (final(cpu)@, cycles) == old(cpu)@.inc16(Pair::SP),
{
    proof {
        reveal(CpuView::inc16);
    }
    inc_xx(cpu, Pair::SP)
}

/// **0x0B** - *DEC bc* - Decrement register bc
pub fn dec_bc(cpu: &mut CPU) -> (cycles: u8)
    requires
        old(cpu).wf(),
    ensures
        final(cpu).wf(),
        (final(cpu)@, cycles) == old(cpu)@.dec16(Pair::BC),
{
    proof {
        reveal(CpuView::dec16);
    }
    dec_xx(cpu, Pair::BC)
}

/// **0x1B** - *DEC de* - Decrement register de
pub fn dec_de(cpu: &mut CPU) -> (cycles: u8)
    requires
        old(cpu).wf(),
    ensures
        final(cpu).wf(),
        (final(cpu)@, cycles) == old(cpu)@.dec16(Pair::DE),
{
    proof {
        reveal(CpuView::dec16);
    }
    dec_xx(cpu, Pair::DE)
}

/// **0x2B** - *DEC hl* - Decrement register hl
pub fn dec_hl(cpu: &mut CPU) -> (cycles: u8)
    requires
        old(cpu).wf(),
    ensures
        final(cpu).wf(),
        (final(cpu)@, cycles) == old(cpu)@.dec16(Pair::HL),
{
    proof {
        reveal(CpuView::dec16);
    }
    dec_xx(cpu, Pair::HL)
}

/// **0x3B** - *DEC sp* - Decrement register sp
pub fn dec_sp(cpu: &mut CPU) -> (cycles: u8)
    requires
        old(cpu).wf(),
    ensures
        final(cpu).wf(),
        (final(cpu)@, cycles) == old(cpu)@.dec16(Pair::SP),
{
    proof {
        reveal(CpuView::dec16);
    }
    dec_xx(cpu, Pair::SP)
}

} // verus!
