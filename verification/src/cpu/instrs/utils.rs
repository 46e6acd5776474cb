//! What the instructions share: fetching their immediate operands, and the
//! names by which they find their other operands.
use crate::cpu::cpu::add16;
use crate::cpu::cpu::signed;
use crate::cpu::cpu::CpuView;
use crate::cpu::cpu::CPU;
use crate::cpu::regs::Registers;
use vstd::prelude::*;

verus! {

/// An 8-bit operand: a register, or the byte at the address in HL. The
/// order is that of the operand field of an opcode.
#[derive(PartialEq, Eq, Structural, Debug, Clone, Copy)]
pub enum Operand {
    B,
    C,
    D,
    E,
    H,
    L,
    /// The byte in memory at the address in HL.
    HL,
    A,
}

/// A 16-bit register.
#[derive(PartialEq, Eq, Structural, Debug, Clone, Copy)]
pub enum Pair {
    BC,
    DE,
    HL,
    SP,
    AF,
}

/// The condition of a conditional jump, call or return.
#[derive(PartialEq, Eq, Structural, Debug, Clone, Copy)]
pub enum Condition {
    NZ,
    Z,
    NC,
    C,
}

impl Operand {
    /// The operand that the 3-bit field `index` of an opcode names.
    pub open spec fn from_index(index: int) -> Operand {
        if index == 0 {
            Operand::B
        } else if index == 1 {
            Operand::C
        } else if index == 2 {
            Operand::D
        } else if index == 3 {
            Operand::E
        } else if index == 4 {
            Operand::H
        } else if index == 5 {
            Operand::L
        } else if index == 6 {
            Operand::HL
        } else {
            Operand::A
        }
    }

    pub open spec fn is_memory(self) -> bool {
        self == Operand::HL
    }

    /// The cycles of an instruction that takes `base` cycles on a register
    /// and `memory` cycles on the byte at HL.
    pub open spec fn cycles(self, base: u8, memory: u8) -> u8 {
        if self.is_memory() {
            memory
        } else {
            base
        }
    }
}

impl Pair {
    /// The register that the 2-bit field `index` of an opcode names, where
    /// the last place is the stack pointer's.
    pub open spec fn with_sp(index: int) -> Pair {
        if index == 0 {
            Pair::BC
        } else if index == 1 {
            Pair::DE
        } else if index == 2 {
            Pair::HL
        } else {
            Pair::SP
        }
    }

    /// The register that the 2-bit field `index` of an opcode names, where
    /// the last place is AF's.
    pub open spec fn with_af(index: int) -> Pair {
        if index == 0 {
            Pair::BC
        } else if index == 1 {
            Pair::DE
        } else if index == 2 {
            Pair::HL
        } else {
            Pair::AF
        }
    }
}

impl Condition {
    /// The condition that the 2-bit field `index` of an opcode names.
    pub open spec fn from_index(index: int) -> Condition {
        if index == 0 {
            Condition::NZ
        } else if index == 1 {
            Condition::Z
        } else if index == 2 {
            Condition::NC
        } else {
            Condition::C
        }
    }
}

impl CpuView {
    /// The value of an 8-bit operand.
    pub open spec fn operand(self, operand: Operand) -> u8 {
        match operand {
            Operand::B => self.regs.b,
            Operand::C => self.regs.c,
            Operand::D => self.regs.d,
            Operand::E => self.regs.e,
            Operand::H => self.regs.h,
            Operand::L => self.regs.l,
            Operand::HL => self.mem.read(self.regs.hl()),
            Operand::A => self.regs.a,
        }
    }

    /// The state after `val` was stored in an 8-bit operand.
    pub open spec fn with_operand(self, operand: Operand, val: u8) -> CpuView {
        match operand {
            Operand::B => self.with_regs(Registers { b: val, ..self.regs }),
            Operand::C => self.with_regs(Registers { c: val, ..self.regs }),
            Operand::D => self.with_regs(Registers { d: val, ..self.regs }),
            Operand::E => self.with_regs(Registers { e: val, ..self.regs }),
            Operand::H => self.with_regs(Registers { h: val, ..self.regs }),
            Operand::L => self.with_regs(Registers { l: val, ..self.regs }),
            Operand::HL => self.with_mem(self.mem.write(self.regs.hl(), val)),
            Operand::A => self.with_regs(Registers { a: val, ..self.regs }),
        }
    }

    /// The value of a 16-bit register.
    pub open spec fn pair(self, pair: Pair) -> u16 {
        match pair {
            Pair::BC => self.regs.bc(),
            Pair::DE => self.regs.de(),
            Pair::HL => self.regs.hl(),
            Pair::SP => self.regs.sp,
            Pair::AF => self.regs.af(),
        }
    }

    /// The state after `val` was stored in a 16-bit register.
    pub open spec fn with_pair(self, pair: Pair, val: u16) -> CpuView {
        match pair {
            Pair::BC => self.with_regs(self.regs.with_bc(val)),
            Pair::DE => self.with_regs(self.regs.with_de(val)),
            Pair::HL => self.with_regs(self.regs.with_hl(val)),
            Pair::SP => self.with_sp(val),
            Pair::AF => self.with_regs(self.regs.with_af(val)),
        }
    }

    /// Whether a condition holds of the flags.
    pub open spec fn holds(self, condition: Condition) -> bool {
        match condition {
            Condition::NZ => !self.regs.flag_z(),
            Condition::Z => self.regs.flag_z(),
            Condition::NC => !self.regs.flag_c(),
            Condition::C => self.regs.flag_c(),
        }
    }
}

/// Reads the byte at the program counter and moves the program counter on.
pub fn get_n(cpu: &mut CPU) -> (value: u8)
    requires
        old(cpu).wf(),
    ensures
        final(cpu).wf(),
        final(cpu)@ == old(cpu)@.advanced(1),
        value == old(cpu)@.immediate(),
{
    let value = cpu.mem.read(cpu.regs.pc);
    cpu.regs.pc = cpu.regs.pc.wrapping_add(1);
    value
}

/// Reads the 16-bit value at the program counter and moves the program
/// counter on.
pub fn get_nn(cpu: &mut CPU) -> (value: u16)
    requires
        old(cpu).wf(),
    ensures
        final(cpu).wf(),
        final(cpu)@ == old(cpu)@.advanced(2),
        value == old(cpu)@.immediate16(),
{
    let value = cpu.mem.read_short(cpu.regs.pc);
    cpu.regs.pc = cpu.regs.pc.wrapping_add(2);
    value
}

/// The 16-bit value that lies the signed byte `offset` after `val`.
pub fn offset_by(val: u16, offset: u8) -> (moved: u16)
    ensures
        moved == add16(val, signed(offset)),
{
    if offset < 128 {
        val.wrapping_add(offset as u16)
    } else {
        val.wrapping_sub(256 - offset as u16)
    }
}

pub fn read_operand(cpu: &CPU, operand: Operand) -> (val: u8)
    requires
        cpu.wf(),
    ensures
        val == cpu@.operand(operand),
{
    match operand {
        Operand::B => cpu.regs.b,
        Operand::C => cpu.regs.c,
        Operand::D => cpu.regs.d,
        Operand::E => cpu.regs.e,
        Operand::H => cpu.regs.h,
        Operand::L => cpu.regs.l,
        Operand::HL => cpu.mem.read(cpu.regs.get_hl()),
        Operand::A => cpu.regs.a,
    }
}

pub fn write_operand(cpu: &mut CPU, operand: Operand, val: u8)
    requires
        old(cpu).wf(),
    ensures
        final(cpu).wf(),
        final(cpu)@ == old(cpu)@.with_operand(operand, val),
{
    match operand {
        Operand::B => {
            cpu.regs.b = val;
        },
        Operand::C => {
            cpu.regs.c = val;
        },
        Operand::D => {
            cpu.regs.d = val;
        },
        Operand::E => {
            cpu.regs.e = val;
        },
        Operand::H => {
            cpu.regs.h = val;
        },
        Operand::L => {
            cpu.regs.l = val;
        },
        Operand::HL => {
            cpu.mem.write(cpu.regs.get_hl(), val);
        },
        Operand::A => {
            cpu.regs.a = val;
        },
    }
}

pub fn read_pair(cpu: &CPU, pair: Pair) -> (val: u16)
    ensures
        val == cpu@.pair(pair),
{
    match pair {
        Pair::BC => cpu.regs.get_bc(),
        Pair::DE => cpu.regs.get_de(),
        Pair::HL => cpu.regs.get_hl(),
        Pair::SP => cpu.regs.sp,
        Pair::AF => cpu.regs.get_af(),
    }
}

pub fn write_pair(cpu: &mut CPU, pair: Pair, val: u16)
    requires
        old(cpu).wf(),
    ensures
        final(cpu).wf(),
        final(cpu)@ == old(cpu)@.with_pair(pair, val),
{
    match pair {
        Pair::BC => {
            cpu.regs.set_bc(val);
        },
        Pair::DE => {
            cpu.regs.set_de(val);
        },
        Pair::HL => {
            cpu.regs.set_hl(val);
        },
        Pair::SP => {
            cpu.regs.sp = val;
        },
        Pair::AF => {
            cpu.regs.set_af(val);
        },
    }
}

pub fn test_condition(cpu: &CPU, condition: Condition) -> (holds: bool)
    ensures
        holds == cpu@.holds(condition),
{
    match condition {
        Condition::NZ => !cpu.regs.get_flag_z(),
        Condition::Z => cpu.regs.get_flag_z(),
        Condition::NC => !cpu.regs.get_flag_c(),
        Condition::C => cpu.regs.get_flag_c(),
    }
}

} // verus!
