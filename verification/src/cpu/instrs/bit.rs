//! Operations to work on single bits.
use crate::bits::bit;
use crate::bits::test_bit;
use crate::cpu::cpu::CpuView;
use crate::cpu::cpu::CPU;
use crate::cpu::instrs::utils::read_operand;
use crate::cpu::instrs::utils::write_operand;
use crate::cpu::instrs::utils::Operand;
use vstd::prelude::*;

verus! {

impl CpuView {
    /// BIT b,x: Z is set exactly when the bit of the operand is clear; N
    /// is cleared, H is set, C stays.
    #[verifier::opaque]
    pub open spec fn bit_test(self, digit: u8, operand: Operand) -> (CpuView, u8) {
        (
            self.with_flags(!bit(self.operand(operand), digit), false, true, self.regs.flag_c()),
            operand.cycles(8, 16),
        )
    }

    /// SET b,x: the bit of the operand is set.
    #[verifier::opaque]
    pub open spec fn bit_set(self, digit: u8, operand: Operand) -> (CpuView, u8) {
        (
            self.with_operand(operand, self.operand(operand) | (1u8 << digit)),
            operand.cycles(8, 16),
        )
    }

    /// RES b,x: the bit of the operand is cleared.
    #[verifier::opaque]
    pub open spec fn bit_reset(self, digit: u8, operand: Operand) -> (CpuView, u8) {
        (
            self.with_operand(operand, self.operand(operand) & !(1u8 << digit)),
            operand.cycles(8, 16),
        )
    }
}

/// After SET the bit is set, after RES it is clear, and either leaves the
/// other bits as they were.
pub proof fn lemma_set_and_reset(val: u8, digit: u8, other: u8)
    requires
        digit < 8,
        other < 8,
    ensures
        bit(val | (1u8 << digit), digit),
        !bit(val & !(1u8 << digit), digit),
        other != digit ==> bit(val | (1u8 << digit), other) == bit(val, other),
        other != digit ==> bit(val & !(1u8 << digit), other) == bit(val, other),
{
    assert((digit < 8 && other < 8) ==> (((val | (1u8 << digit)) >> digit) & 0x1 == 1 && ((val & !(
    1u8 << digit)) >> digit) & 0x1 == 0 && (other != digit ==> (((val | (1u8 << digit)) >> other)
        & 0x1 == (val >> other) & 0x1 && ((val & !(1u8 << digit)) >> other) & 0x1 == (val
        >> other) & 0x1)))) by (bit_vector);
}

/// **0xCB 0x40 ~ 0x7F** - *BIT b,X* - Test bit b in X
pub fn bit_x(cpu: &mut CPU, digit: u8, operand: Operand) -> (cycles: u8)
    requires
        old(cpu).wf(),
        digit < 8,
    ensures
        final(cpu).wf(),
        (final(cpu)@, cycles) == old(cpu)@.bit_test(digit, operand),
{
    proof {
        reveal(CpuView::bit_test);
    }
    let cur_value: u8 = read_operand(cpu, operand);
    let carry: bool = cpu.regs.get_flag_c();
    cpu.regs.set_flags(!test_bit(cur_value, digit), false, true, carry);
    match operand {
        Operand::HL => 16,
        _ => 8,
    }
}

/// **0xCB 0xC0 ~ 0xFF** - *SET b,X* - Set bit b in X
pub fn set_x(cpu: &mut CPU, digit: u8, operand: Operand) -> (cycles: u8)
    requires
        old(cpu).wf(),
        digit < 8,
    ensures
        final(cpu).wf(),
        (final(cpu)@, cycles) == old(cpu)@.bit_set(digit, operand),
{
    proof {
        reveal(CpuView::bit_set);
    }
    let read_data: u8 = read_operand(cpu, operand) | (1u8 << digit);
    write_operand(cpu, operand, read_data);
    match operand {
        Operand::HL => 16,
        _ => 8,
    }
}

/// **0xCB 0x80 ~ 0xBF** - *RES b,X* - Reset bit b in X
pub fn res_x(cpu: &mut CPU, digit: u8, operand: Operand) -> (cycles: u8)
    requires
        old(cpu).wf(),
        digit < 8,
    ensures
        final(cpu).wf(),
        (final(cpu)@, cycles) == old(cpu)@.bit_reset(digit, operand),
{
    proof {
        reveal(CpuView::bit_reset);
    }
    let read_data: u8 = read_operand(cpu, operand) & !(1u8 << digit);
    write_operand(cpu, operand, read_data);
    match operand {
        Operand::HL => 16,
        _ => 8,
    }
}

/// **0xCB 0x46 ~ 0x7E** - *BIT b,(hl)* - Test bit b in (hl)
pub fn bit_phl(cpu: &mut CPU, digit: u8) -> (cycles: u8)
    requires
        old(cpu).wf(),
        digit < 8,
    ensures
        final(cpu).wf(),
        (final(cpu)@, cycles) == old(cpu)@.bit_test(digit, Operand::HL),
{
    proof {
        reveal(CpuView::bit_test);
    }
    bit_x(cpu, digit, Operand::HL)
}

/// **0xCB 0xC6 ~ 0xFE** - *SET b,(hl)* - Set bit b in (hl)
pub fn set_x_hl(cpu: &mut CPU, digit: u8) -> (cycles: u8)
    requires
        old(cpu).wf(),
        digit < 8,
    ensures
        final(cpu).wf(),
        (final(cpu)@, cycles) == old(cpu)@.bit_set(digit, Operand::HL),
{
    proof {
        reveal(CpuView::bit_set);
    }
    set_x(cpu, digit, Operand::HL)
}

/// **0xCB 0x86 ~ 0xBE** - *RES b,(hl)* - Reset bit b in (hl)
pub fn res_x_hl(cpu: &mut CPU, digit: u8) -> (cycles: u8)
    requires
        old(cpu).wf(),
        digit < 8,
    ensures
        final(cpu).wf(),
        (final(cpu)@, cycles) == old(cpu)@.bit_reset(digit, Operand::HL),
{
    proof {
        reveal(CpuView::bit_reset);
    }
    res_x(cpu, digit, Operand::HL)
}

} // verus!
