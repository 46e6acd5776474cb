//! Instructions that move single bytes between registers and memory.
use crate::cpu::cpu::add16;
use crate::cpu::cpu::CpuView;
use crate::cpu::cpu::CPU;
use crate::cpu::instrs::utils::get_n;
use crate::cpu::instrs::utils::read_operand;
use crate::cpu::instrs::utils::write_operand;
use crate::cpu::instrs::utils::Operand;
use crate::cpu::instrs::utils::Pair;
use crate::mem::GBMemory;
use vstd::prelude::*;

verus! {

impl CpuView {
    /// The state after `val` was written to the address `ptr`.
    pub open spec fn stored(self, ptr: u16, val: u8) -> CpuView {
        self.with_mem(self.mem.write(ptr, val))
    }

    /// LD dst,src: the source operand is copied to the destination.
    #[verifier::opaque]
    pub open spec fn ld(self, dst: Operand, src: Operand) -> (CpuView, u8) {
        (
            self.with_operand(dst, self.operand(src)),
            if dst.is_memory() || src.is_memory() {
                8
            } else {
                4
            },
        )
    }

    /// LD dst,n: the byte that follows the opcode is stored in the
    /// destination.
    #[verifier::opaque]
    pub open spec fn ld_immediate(self, dst: Operand) -> (CpuView, u8) {
        (self.advanced(1).with_operand(dst, self.immediate()), dst.cycles(8, 12))
    }

    /// LD A,(rr): the byte at the address in a 16-bit register is loaded
    /// into A.
    #[verifier::opaque]
    pub open spec fn ld_a_at(self, pair: Pair) -> (CpuView, u8) {
        (self.with_a(self.mem.read(self.pair(pair))), 8)
    }

    /// LD (rr),A: A is stored at the address in a 16-bit register.
    #[verifier::opaque]
    pub open spec fn ld_at_a(self, pair: Pair) -> (CpuView, u8) {
        (self.stored(self.pair(pair), self.regs.a), 8)
    }

    /// LDI (HL),A and LDD (HL),A: A is stored at the address in HL, and
    /// HL moves by `step`.
    #[verifier::opaque]
    pub open spec fn ld_hl_a_step(self, step: int) -> (CpuView, u8) {
        (
            self.stored(self.regs.hl(), self.regs.a).with_pair(
                Pair::HL,
                add16(self.regs.hl(), step),
            ),
            8,
        )
    }

    /// LDI A,(HL) and LDD A,(HL): the byte at the address in HL is loaded
    /// into A, and HL moves by `step`.
    #[verifier::opaque]
    pub open spec fn ld_a_hl_step(self, step: int) -> (CpuView, u8) {
        (
            self.with_a(self.mem.read(self.regs.hl())).with_pair(
                Pair::HL,
                add16(self.regs.hl(), step),
            ),
            8,
        )
    }
}

/// **0x02** - *LD (xx),y* - Put y in \*xx
pub fn ld_pxx_x(xx: u16, y: u8, cpu: &mut CPU) -> (cycles: u8)
    requires
        old(cpu).wf(),
    ensures
        final(cpu).wf(),
        final(cpu)@ == old(cpu)@.stored(xx, y),
        cycles == 8,
{
    cpu.mem.write(xx, y);
    8
}

/// **0x0A** - *LD n,(xx)* - Put (xx) in n
pub fn ld_n_pxx(mem: &GBMemory, xx: u16, n: &mut u8) -> (cycles: u8)
    requires
        mem.wf(),
    ensures
        *final(n) == mem@.read(xx),
        cycles == 8,
{
    *n = mem.read(xx);
    8
}

/// **0x40** - *LD x,y* - Put y in x
pub fn ld_x_y(y: u8, x: &mut u8) -> (cycles: u8)
    ensures
        *final(x) == y,
        cycles == 4,
{
    *x = y;
    4
}

/// **0x46** - *LD x,(hl)* - Put (hl) in x
pub fn ld_x_phl(hl: u16, mem: &GBMemory, x: &mut u8) -> (cycles: u8)
    requires
        mem.wf(),
    ensures
        *final(x) == mem@.read(hl),
        cycles == 8,
{
    *x = mem.read(hl);
    8
}

/// **0x70** - *LD (hl),x* - Put x in \*hl
pub fn ld_phl_x(x: u8, cpu: &mut CPU) -> (cycles: u8)
    requires
        old(cpu).wf(),
    ensures
        final(cpu).wf(),
        final(cpu)@ == old(cpu)@.stored(old(cpu)@.regs.hl(), x),
        cycles == 8,
{
    cpu.mem.write(cpu.regs.get_hl(), x);
    8
}

/// *LD x,#* - Put # in x
pub fn ld_x_n(cpu: &mut CPU, dst: Operand) -> (cycles: u8)
    requires
        old(cpu).wf(),
    ensures
        final(cpu).wf(),
        (final(cpu)@, cycles) == old(cpu)@.ld_immediate(dst),
{
    proof {
        reveal(CpuView::ld_immediate);
    }
    let value: u8 = get_n(cpu);
    write_operand(cpu, dst, value);
    match dst {
        Operand::HL => 12,
        _ => 8,
    }
}

/// *LD x,y* - Put y in x, for any two operands
pub fn ld_operands(cpu: &mut CPU, dst: Operand, src: Operand) -> (cycles: u8)
    requires
        old(cpu).wf(),
    ensures
        final(cpu).wf(),
        (final(cpu)@, cycles) == old(cpu)@.ld(dst, src),
{
    proof {
        reveal(CpuView::ld);
    }
    match src {
        Operand::HL => {
            let hl: u16 = cpu.regs.get_hl();
            match dst {
                Operand::B => ld_x_phl(hl, &cpu.mem, &mut cpu.regs.b),
                Operand::C => ld_x_phl(hl, &cpu.mem, &mut cpu.regs.c),
                Operand::D => ld_x_phl(hl, &cpu.mem, &mut cpu.regs.d),
                Operand::E => ld_x_phl(hl, &cpu.mem, &mut cpu.regs.e),
                Operand::H => ld_x_phl(hl, &cpu.mem, &mut cpu.regs.h),
                Operand::L => ld_x_phl(hl, &cpu.mem, &mut cpu.regs.l),
                Operand::A => ld_x_phl(hl, &cpu.mem, &mut cpu.regs.a),
                Operand::HL => {
                    let value: u8 = cpu.mem.read(hl);
                    ld_phl_x(value, cpu)
                },
            }
        },
        _ => {
            let value: u8 = read_operand(cpu, src);
            match dst {
                Operand::B => ld_x_y(value, &mut cpu.regs.b),
                Operand::C => ld_x_y(value, &mut cpu.regs.c),
                Operand::D => ld_x_y(value, &mut cpu.regs.d),
                Operand::E => ld_x_y(value, &mut cpu.regs.e),
                Operand::H => ld_x_y(value, &mut cpu.regs.h),
                Operand::L => ld_x_y(value, &mut cpu.regs.l),
                Operand::A => ld_x_y(value, &mut cpu.regs.a),
                Operand::HL => ld_phl_x(value, cpu),
            }
        },
    }
}

/// **0x06** - *LD b,#* - Put # in b
pub fn ld_b_n(cpu: &mut CPU) -> (cycles: u8)
    requires
        old(cpu).wf(),
    ensures
        final(cpu).wf(),
        (final(cpu)@, cycles) == old(cpu)@.ld_immediate(Operand::B),
{
    proof {
        reveal(CpuView::ld_immediate);
    }
    ld_x_n(cpu, Operand::B)
}

/// **0x0E** - *LD c,#* - Put # in c
pub fn ld_c_n(cpu: &mut CPU) -> (cycles: u8)
    requires
        old(cpu).wf(),
    ensures
        final(cpu).wf(),
        (final(cpu)@, cycles) == old(cpu)@.ld_immediate(Operand::C),
{
    proof {
        reveal(CpuView::ld_immediate);
    }
    ld_x_n(cpu, Operand::C)
}

/// **0x16** - *LD d,#* - Put # in d
pub fn ld_d_n(cpu: &mut CPU) -> (cycles: u8)
    requires
        old(cpu).wf(),
    ensures
        final(cpu).wf(),
        (final(cpu)@, cycles) == old(cpu)@.ld_immediate(Operand::D),
{
    proof {
        reveal(CpuView::ld_immediate);
    }
    ld_x_n(cpu, Operand::D)
}

/// **0x1E** - *LD e,#* - Put # in e
pub fn ld_e_n(cpu: &mut CPU) -> (cycles: u8)
    requires
        old(cpu).wf(),
    ensures
        final(cpu).wf(),
        (final(cpu)@, cycles) == old(cpu)@.ld_immediate(Operand::E),
{
    proof {
        reveal(CpuView::ld_immediate);
    }
    ld_x_n(cpu, Operand::E)
}

/// **0x26** - *LD h,#* - Put # in h
pub fn ld_h_n(cpu: &mut CPU) -> (cycles: u8)
    requires
        old(cpu).wf(),
    ensures
        final(cpu).wf(),
        (final(cpu)@, cycles) == old(cpu)@.ld_immediate(Operand::H),
{
    proof {
        reveal(CpuView::ld_immediate);
    }
    ld_x_n(cpu, Operand::H)
}

/// **0x2E** - *LD l,#* - Put # in l
pub fn ld_l_n(cpu: &mut CPU) -> (cycles: u8)
    requires
        old(cpu).wf(),
    ensures
        final(cpu).wf(),
        (final(cpu)@, cycles) == old(cpu)@.ld_immediate(Operand::L),
{
    proof {
        reveal(CpuView::ld_immediate);
    }
    ld_x_n(cpu, Operand::L)
}

/// **0x3E** - *LD a,#* - Put # in a
pub fn ld_a_n(cpu: &mut CPU) -> (cycles: u8)
    requires
        old(cpu).wf(),
    ensures
        final(cpu).wf(),
        (final(cpu)@, cycles) == old(cpu)@.ld_immediate(Operand::A),
{
    proof {
        reveal(CpuView::ld_immediate);
    }
    ld_x_n(cpu, Operand::A)
}

/// **0x36** - *LD (hl),n* - Put n in \*hl
pub fn ld_phl_n(cpu: &mut CPU) -> (cycles: u8)
    requires
        old(cpu).wf(),
    ensures
        final(cpu).wf(),
        (final(cpu)@, cycles) == old(cpu)@.ld_immediate(Operand::HL),
{
    proof {
        reveal(CpuView::ld_immediate);
    }
    ld_x_n(cpu, Operand::HL)
}

/// **0x22** - *LDI (hl),a* - Put a into \*hl. Increment hl.
pub fn ldi_phl_a(cpu: &mut CPU) -> (cycles: u8)
    requires
        old(cpu).wf(),
    ensures
        final(cpu).wf(),
        (final(cpu)@, cycles) == old(cpu)@.ld_hl_a_step(1),
{
    proof {
        reveal(CpuView::ld_hl_a_step);
    }
    cpu.mem.write(cpu.regs.get_hl(), cpu.regs.a);
    let new_value: u16 = cpu.regs.get_hl().wrapping_add(1);
    cpu.regs.set_hl(new_value);
    8
}

/// **0x2A** - *LDI a,(hl)* - Put \*hl into a. Increment hl.
pub fn ldi_a_phl(cpu: &mut CPU) -> (cycles: u8)
    requires
        old(cpu).wf(),
    ensures
        final(cpu).wf(),
        (final(cpu)@, cycles) == old(cpu)@.ld_a_hl_step(1),
{
    proof {
        reveal(CpuView::ld_a_hl_step);
    }
    cpu.regs.a = cpu.mem.read(cpu.regs.get_hl());
    let new_value: u16 = cpu.regs.get_hl().wrapping_add(1);
    cpu.regs.set_hl(new_value);
    8
}

/// **0x32** - *LDD (hl),a* - Put a into \*hl. Decrement hl.
pub fn ldd_phl_a(cpu: &mut CPU) -> (cycles: u8)
    requires
        old(cpu).wf(),
    ensures
        final(cpu).wf(),
        (final(cpu)@, cycles) == old(cpu)@.ld_hl_a_step(-1),
{
    proof {
        reveal(CpuView::ld_hl_a_step);
    }
    cpu.mem.write(cpu.regs.get_hl(), cpu.regs.a);
    let new_value: u16 = cpu.regs.get_hl().wrapping_sub(1);
    cpu.regs.set_hl(new_value);
    8
}

/// **0x3A** - *LDD a,(hl)* - Put \*hl into a. Decrement hl.
pub fn ldd_a_phl(cpu: &mut CPU) -> (cycles: u8)
    requires
        old(cpu).wf(),
    ensures
        final(cpu).wf(),
        (final(cpu)@, cycles) == old(cpu)@.ld_a_hl_step(-1),
{
    proof {
        reveal(CpuView::ld_a_hl_step);
    }
    cpu.regs.a = cpu.mem.read(cpu.regs.get_hl());
    let new_value: u16 = cpu.regs.get_hl().wrapping_sub(1);
    cpu.regs.set_hl(new_value);
    8
}

} // verus!
