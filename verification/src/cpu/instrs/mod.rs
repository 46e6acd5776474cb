//! The primary switchboard for the instructions: what each opcode does,
//! told from the fields of the opcode, and the table that runs it.
pub mod bit;
pub mod bitrotation;
pub mod bitshift;
pub mod bitswap;
pub mod bitwise;
pub mod comparisons;
pub mod general;
pub mod increments;
pub mod jumps;
pub mod loads;
pub mod loads16;
pub mod special;
pub mod utils;

use crate::cpu::alu::AluOp;
use crate::cpu::alu::ShiftOp;
use crate::cpu::cpu::CpuView;
use crate::cpu::cpu::CPU;
use crate::cpu::instrs::bit::bit_phl;
use crate::cpu::instrs::bit::bit_x;
use crate::cpu::instrs::bit::res_x;
use crate::cpu::instrs::bit::res_x_hl;
use crate::cpu::instrs::bit::set_x;
use crate::cpu::instrs::bit::set_x_hl;
use crate::cpu::instrs::bitrotation::rl_phl;
use crate::cpu::instrs::bitrotation::rla;
use crate::cpu::instrs::bitrotation::rlc_phl;
use crate::cpu::instrs::bitrotation::rlca;
use crate::cpu::instrs::bitrotation::rr_phl;
use crate::cpu::instrs::bitrotation::rra;
use crate::cpu::instrs::bitrotation::rrc_phl;
use crate::cpu::instrs::bitrotation::rrca;
use crate::cpu::instrs::bitrotation::shift_x;
use crate::cpu::instrs::bitshift::sla_x;
use crate::cpu::instrs::bitshift::sra_x;
use crate::cpu::instrs::bitshift::srl_x;
use crate::cpu::instrs::bitswap::swap_phl;
use crate::cpu::instrs::bitswap::swap_x;
use crate::cpu::instrs::bitwise::and_n;
use crate::cpu::instrs::bitwise::and_phl;
use crate::cpu::instrs::bitwise::or_n;
use crate::cpu::instrs::bitwise::or_phl;
use crate::cpu::instrs::bitwise::xor_hl;
use crate::cpu::instrs::bitwise::xor_n;
use crate::cpu::instrs::comparisons::cp_n;
use crate::cpu::instrs::comparisons::cp_phl;
use crate::cpu::instrs::general::adc_a_n;
use crate::cpu::instrs::general::adc_a_phl;
use crate::cpu::instrs::general::add_a_n;
use crate::cpu::instrs::general::add_a_phl;
use crate::cpu::instrs::general::add_hl_x;
use crate::cpu::instrs::general::add_sp_ns;
use crate::cpu::instrs::general::alu_x;
use crate::cpu::instrs::general::sbc_n;
use crate::cpu::instrs::general::sbc_phl;
use crate::cpu::instrs::general::sub_a_n;
use crate::cpu::instrs::general::sub_phl;
use crate::cpu::instrs::increments::dec_a;
use crate::cpu::instrs::increments::dec_b;
use crate::cpu::instrs::increments::dec_bc;
use crate::cpu::instrs::increments::dec_c;
use crate::cpu::instrs::increments::dec_d;
use crate::cpu::instrs::increments::dec_de;
use crate::cpu::instrs::increments::dec_e;
use crate::cpu::instrs::increments::dec_h;
use crate::cpu::instrs::increments::dec_hl;
use crate::cpu::instrs::increments::dec_l;
use crate::cpu::instrs::increments::dec_phl;
use crate::cpu::instrs::increments::dec_sp;
use crate::cpu::instrs::increments::inc_a;
use crate::cpu::instrs::increments::inc_b;
use crate::cpu::instrs::increments::inc_bc;
use crate::cpu::instrs::increments::inc_c;
use crate::cpu::instrs::increments::inc_d;
use crate::cpu::instrs::increments::inc_de;
use crate::cpu::instrs::increments::inc_e;
use crate::cpu::instrs::increments::inc_h;
use crate::cpu::instrs::increments::inc_hl;
use crate::cpu::instrs::increments::inc_l;
use crate::cpu::instrs::increments::inc_phl;
use crate::cpu::instrs::increments::inc_sp;
use crate::cpu::instrs::jumps::call_c_nn;
use crate::cpu::instrs::jumps::call_nc_nn;
use crate::cpu::instrs::jumps::call_nn;
use crate::cpu::instrs::jumps::call_nz_nn;
use crate::cpu::instrs::jumps::call_z_nn;
use crate::cpu::instrs::jumps::jmp_hl;
use crate::cpu::instrs::jumps::jmp_nn;
use crate::cpu::instrs::jumps::jp_c_nn;
use crate::cpu::instrs::jumps::jp_nc_nn;
use crate::cpu::instrs::jumps::jp_nz_nn;
use crate::cpu::instrs::jumps::jp_z_nn;
use crate::cpu::instrs::jumps::jr_c_n;
use crate::cpu::instrs::jumps::jr_n;
use crate::cpu::instrs::jumps::jr_nc_n;
use crate::cpu::instrs::jumps::jr_nz_n;
use crate::cpu::instrs::jumps::jr_z_n;
use crate::cpu::instrs::jumps::ret;
use crate::cpu::instrs::jumps::ret_c;
use crate::cpu::instrs::jumps::ret_nc;
use crate::cpu::instrs::jumps::ret_nz;
use crate::cpu::instrs::jumps::ret_z;
use crate::cpu::instrs::jumps::reti;
use crate::cpu::instrs::jumps::rst;
use crate::cpu::instrs::loads::ld_a_n;
use crate::cpu::instrs::loads::ld_b_n;
use crate::cpu::instrs::loads::ld_c_n;
use crate::cpu::instrs::loads::ld_d_n;
use crate::cpu::instrs::loads::ld_e_n;
use crate::cpu::instrs::loads::ld_h_n;
use crate::cpu::instrs::loads::ld_l_n;
use crate::cpu::instrs::loads::ld_n_pxx;
use crate::cpu::instrs::loads::ld_operands;
use crate::cpu::instrs::loads::ld_phl_n;
use crate::cpu::instrs::loads::ld_pxx_x;
use crate::cpu::instrs::loads::ldd_a_phl;
use crate::cpu::instrs::loads::ldd_phl_a;
use crate::cpu::instrs::loads::ldi_a_phl;
use crate::cpu::instrs::loads::ldi_phl_a;
use crate::cpu::instrs::loads16::ld_a_pnn;
use crate::cpu::instrs::loads16::ld_a_ptrc;
use crate::cpu::instrs::loads16::ld_bc_nnnn;
use crate::cpu::instrs::loads16::ld_de_nn;
use crate::cpu::instrs::loads16::ld_hl_nnnn;
use crate::cpu::instrs::loads16::ld_pc;
use crate::cpu::instrs::loads16::ld_pnn_a;
use crate::cpu::instrs::loads16::ld_pnn_sp;
use crate::cpu::instrs::loads16::ld_sp_hl;
use crate::cpu::instrs::loads16::ld_sp_nn;
use crate::cpu::instrs::loads16::ldh_a_pn;
use crate::cpu::instrs::loads16::ldh_pn_a;
use crate::cpu::instrs::loads16::ldhl_sp_n;
use crate::cpu::instrs::loads16::pop_af;
use crate::cpu::instrs::loads16::pop_bc;
use crate::cpu::instrs::loads16::pop_de;
use crate::cpu::instrs::loads16::pop_hl;
use crate::cpu::instrs::loads16::push_af;
use crate::cpu::instrs::loads16::push_bc;
use crate::cpu::instrs::loads16::push_de;
use crate::cpu::instrs::loads16::push_hl;
use crate::cpu::instrs::special::ccf;
use crate::cpu::instrs::special::cpl;
use crate::cpu::instrs::special::daa;
use crate::cpu::instrs::special::di;
use crate::cpu::instrs::special::ei;
use crate::cpu::instrs::special::halt;
use crate::cpu::instrs::special::nop;
use crate::cpu::instrs::special::scf;
use crate::cpu::instrs::special::stop;
use crate::cpu::instrs::utils::Condition;
use crate::cpu::instrs::utils::Operand;
use crate::cpu::instrs::utils::Pair;
use vstd::prelude::*;

verus! {

impl AluOp {
    /// The operation that the 3-bit field `index` of an opcode names.
    pub open spec fn from_index(index: int) -> AluOp {
        if index == 0 {
            AluOp::Add
        } else if index == 1 {
            AluOp::Adc
        } else if index == 2 {
            AluOp::Sub
        } else if index == 3 {
            AluOp::Sbc
        } else if index == 4 {
            AluOp::And
        } else if index == 5 {
            AluOp::Xor
        } else if index == 6 {
            AluOp::Or
        } else {
            AluOp::Cp
        }
    }
}

impl ShiftOp {
    /// The rotation or shift that the 3-bit field `index` of an opcode
    /// names.
    pub open spec fn from_index(index: int) -> ShiftOp {
        if index == 0 {
            ShiftOp::Rlc
        } else if index == 1 {
            ShiftOp::Rrc
        } else if index == 2 {
            ShiftOp::Rl
        } else if index == 3 {
            ShiftOp::Rr
        } else if index == 4 {
            ShiftOp::Sla
        } else if index == 5 {
            ShiftOp::Sra
        } else if index == 6 {
            ShiftOp::Swap
        } else {
            ShiftOp::Srl
        }
    }
}

/// Whether the one-byte opcode `op` is one of the eleven that name no
/// instruction.
pub open spec fn is_unused(op: int) -> bool {
    op == 0xD3 || op == 0xDB || op == 0xDD || op == 0xE3 || op == 0xE4 || op == 0xEB || op == 0xEC
        || op == 0xED || op == 0xF4 || op == 0xFC || op == 0xFD
}

/// Whether the instruction word `instr` names an instruction. The word of
/// a one-byte opcode is the opcode; the word of a prefixed opcode has the
/// prefix 0xCB in its low byte and the second byte in its high byte.
pub open spec fn is_defined(instr: u16) -> bool {
    instr % 256 == 0xCB || (instr < 256 && !is_unused(instr as int))
}

impl CpuView {
    /// What a prefixed opcode does. Its high two bits choose between the
    /// rotations and shifts, BIT, RES and SET; its middle three bits name the
    /// rotation or the bit, its low three bits the operand.
    pub open spec fn execute_prefixed(self, op: int) -> (CpuView, u8) {
        let operand = Operand::from_index(op % 8);
        let y = (op / 8) % 8;
        if op / 64 == 0 {
            self.shifted(ShiftOp::from_index(y), operand)
        } else if op / 64 == 1 {
            self.bit_test(y as u8, operand)
        } else if op / 64 == 2 {
            self.bit_reset(y as u8, operand)
        } else {
            self.bit_set(y as u8, operand)
        }
    }

    /// What the opcodes 0x00 to 0x3F do.
    pub open spec fn execute_first(self, op: int) -> (CpuView, u8) {
        let y = (op / 8) % 8;
        let z = op % 8;
        if z == 0 {
            if y == 0 {
                self.nop()
            } else if y == 1 {
                self.ld_pnn_sp()
            } else if y == 2 {
                self.stop()
            } else if y == 3 {
                self.jr(None)
            } else {
                self.jr(Some(Condition::from_index(y - 4)))
            }
        } else if z == 1 {
            if y % 2 == 0 {
                self.ld_pair_immediate(Pair::with_sp(y / 2))
            } else {
                self.add_hl(self.pair(Pair::with_sp(y / 2)))
            }
        } else if z == 2 {
            if y == 0 {
                self.ld_at_a(Pair::BC)
            } else if y == 1 {
                self.ld_a_at(Pair::BC)
            } else if y == 2 {
                self.ld_at_a(Pair::DE)
            } else if y == 3 {
                self.ld_a_at(Pair::DE)
            } else if y == 4 {
                self.ld_hl_a_step(1)
            } else if y == 5 {
                self.ld_a_hl_step(1)
            } else if y == 6 {
                self.ld_hl_a_step(-1)
            } else {
                self.ld_a_hl_step(-1)
            }
        } else if z == 3 {
            if y % 2 == 0 {
                self.inc16(Pair::with_sp(y / 2))
            } else {
                self.dec16(Pair::with_sp(y / 2))
            }
        } else if z == 4 {
            self.inc8(Operand::from_index(y))
        } else if z == 5 {
            self.dec8(Operand::from_index(y))
        } else if z == 6 {
            self.ld_immediate(Operand::from_index(y))
        } else {
            if y == 0 {
                self.shifted_a(ShiftOp::Rlc)
            } else if y == 1 {
                self.shifted_a(ShiftOp::Rrc)
            } else if y == 2 {
                self.shifted_a(ShiftOp::Rl)
            } else if y == 3 {
                self.shifted_a(ShiftOp::Rr)
            } else if y == 4 {
                self.daa()
            } else if y == 5 {
                self.cpl()
            } else if y == 6 {
                self.scf()
            } else {
                self.ccf()
            }
        }
    }

    /// What the opcodes 0xC0 to 0xFF do, but for the eleven that name no
    /// instruction and for the prefix.
    pub open spec fn execute_last(self, op: int) -> (CpuView, u8) {
        let y = (op / 8) % 8;
        let z = op % 8;
        if z == 0 {
            if y < 4 {
                self.ret(Some(Condition::from_index(y)))
            } else if y == 4 {
                self.ldh_pn_a()
            } else if y == 5 {
                self.add_sp()
            } else if y == 6 {
                self.ldh_a_pn()
            } else {
                self.ldhl_sp_n()
            }
        } else if z == 1 {
            if y % 2 == 0 {
                self.pop_pair(Pair::with_af(y / 2))
            } else if y == 1 {
                self.ret(None)
            } else if y == 3 {
                self.reti()
            } else if y == 5 {
                self.jp_hl()
            } else {
                self.ld_sp_hl()
            }
        } else if z == 2 {
            if y < 4 {
                self.jp(Some(Condition::from_index(y)))
            } else if y == 4 {
                self.ld_pc_a()
            } else if y == 5 {
                self.ld_pnn_a()
            } else if y == 6 {
                self.ld_a_pc()
            } else {
                self.ld_a_pnn()
            }
        } else if z == 3 {
            if y == 0 {
                self.jp(None)
            } else if y == 6 {
                self.di()
            } else {
                self.ei()
            }
        } else if z == 4 {
            self.call(Some(Condition::from_index(y)))
        } else if z == 5 {
            if y % 2 == 0 {
                self.push_pair(Pair::with_af(y / 2))
            } else {
                self.call(None)
            }
        } else if z == 6 {
            self.alu_immediate(AluOp::from_index(y))
        } else {
            self.rst((y * 8) as u16)
        }
    }

    /// What a one-byte opcode does. The opcodes 0x40 to 0x7F are the loads
    /// between two operands, with HALT in the place of a load from the byte
    /// at HL to itself; the opcodes 0x80 to 0xBF are the operations of A with
    /// an operand.
    pub open spec fn execute_plain(self, op: int) -> (CpuView, u8) {
        if op / 64 == 0 {
            self.execute_first(op)
        } else if op / 64 == 1 {
            if op == 0x76 {
                self.halt()
            } else {
                self.ld(Operand::from_index((op / 8) % 8), Operand::from_index(op % 8))
            }
        } else if op / 64 == 2 {
            self.alu_operand(AluOp::from_index((op / 8) % 8), Operand::from_index(op % 8))
        } else {
            self.execute_last(op)
        }
    }

    /// The state after the instruction `instr` has run, and the cycles
    /// that it takes. The program counter of the state points behind the
    /// opcode.
    #[verifier::opaque]
    pub open spec fn execute(self, instr: u16) -> (CpuView, u8) {
        if instr % 256 == 0xCB {
            self.execute_prefixed(instr as int / 256)
        } else {
            self.execute_plain(instr as int)
        }
    }
}

/// Runs one of the opcodes 0x00 to 0x0F.
fn plain_00(cpu: &mut CPU, op: u8) -> (cycles: u8)
    requires
        old(cpu).wf(),
        0x00 <= op <= 0x0F,
    ensures
        final(cpu).wf(),
        (final(cpu)@, cycles) == old(cpu)@.execute_plain(op as int),
{
    proof {
        reveal(CpuView::ld_at_a);
        reveal(CpuView::ld_a_at);
    }
    match op {
        0x00 => nop(cpu),
        0x01 => ld_bc_nnnn(cpu),
        0x02 => ld_pxx_x(cpu.regs.get_bc(), cpu.regs.a, cpu),
        0x03 => inc_bc(cpu),
        0x04 => inc_b(cpu),
        0x05 => dec_b(cpu),
        0x06 => ld_b_n(cpu),
        0x07 => rlca(cpu),
        0x08 => ld_pnn_sp(cpu),
        0x09 => add_hl_x(cpu.regs.get_bc(), cpu),
        0x0A => ld_n_pxx(&cpu.mem, cpu.regs.get_bc(), &mut cpu.regs.a),
        0x0B => dec_bc(cpu),
        0x0C => inc_c(cpu),
        0x0D => dec_c(cpu),
        0x0E => ld_c_n(cpu),
        0x0F => rrca(cpu),
        _ => 0,
    }
}

/// Runs one of the opcodes 0x10 to 0x1F.
fn plain_10(cpu: &mut CPU, op: u8) -> (cycles: u8)
    requires
        old(cpu).wf(),
        0x10 <= op <= 0x1F,
    ensures
        final(cpu).wf(),
        (final(cpu)@, cycles) == old(cpu)@.execute_plain(op as int),
{
    proof {
        reveal(CpuView::ld_at_a);
        reveal(CpuView::ld_a_at);
    }
    match op {
        0x10 => stop(cpu),
        0x11 => ld_de_nn(cpu),
        0x12 => ld_pxx_x(cpu.regs.get_de(), cpu.regs.a, cpu),
        0x13 => inc_de(cpu),
        0x14 => inc_d(cpu),
        0x15 => dec_d(cpu),
        0x16 => ld_d_n(cpu),
        0x17 => rla(cpu),
        0x18 => jr_n(cpu),
        0x19 => add_hl_x(cpu.regs.get_de(), cpu),
        0x1A => ld_n_pxx(&cpu.mem, cpu.regs.get_de(), &mut cpu.regs.a),
        0x1B => dec_de(cpu),
        0x1C => inc_e(cpu),
        0x1D => dec_e(cpu),
        0x1E => ld_e_n(cpu),
        0x1F => rra(cpu),
        _ => 0,
    }
}

/// Runs one of the opcodes 0x20 to 0x2F.
fn plain_20(cpu: &mut CPU, op: u8) -> (cycles: u8)
    requires
        old(cpu).wf(),
        0x20 <= op <= 0x2F,
    ensures
        final(cpu).wf(),
        (final(cpu)@, cycles) == old(cpu)@.execute_plain(op as int),
{
    match op {
        0x20 => jr_nz_n(cpu),
        0x21 => ld_hl_nnnn(cpu),
        0x22 => ldi_phl_a(cpu),
        0x23 => inc_hl(cpu),
        0x24 => inc_h(cpu),
        0x25 => dec_h(cpu),
        0x26 => ld_h_n(cpu),
        0x27 => daa(cpu),
        0x28 => jr_z_n(cpu),
        0x29 => add_hl_x(cpu.regs.get_hl(), cpu),
        0x2A => ldi_a_phl(cpu),
        0x2B => dec_hl(cpu),
        0x2C => inc_l(cpu),
        0x2D => dec_l(cpu),
        0x2E => ld_l_n(cpu),
        0x2F => cpl(cpu),
        _ => 0,
    }
}

/// Runs one of the opcodes 0x30 to 0x3F.
fn plain_30(cpu: &mut CPU, op: u8) -> (cycles: u8)
    requires
        old(cpu).wf(),
        0x30 <= op <= 0x3F,
    ensures
        final(cpu).wf(),
        (final(cpu)@, cycles) == old(cpu)@.execute_plain(op as int),
{
    match op {
        0x30 => jr_nc_n(cpu),
        0x31 => ld_sp_nn(cpu),
        0x32 => ldd_phl_a(cpu),
        0x33 => inc_sp(cpu),
        0x34 => inc_phl(cpu),
        0x35 => dec_phl(cpu),
        0x36 => ld_phl_n(cpu),
        0x37 => scf(cpu),
        0x38 => jr_c_n(cpu),
        0x39 => add_hl_x(cpu.regs.sp, cpu),
        0x3A => ldd_a_phl(cpu),
        0x3B => dec_sp(cpu),
        0x3C => inc_a(cpu),
        0x3D => dec_a(cpu),
        0x3E => ld_a_n(cpu),
        0x3F => ccf(cpu),
        _ => 0,
    }
}

/// Runs one of the opcodes 0x40 to 0x4F.
fn plain_40(cpu: &mut CPU, op: u8) -> (cycles: u8)
    requires
        old(cpu).wf(),
        0x40 <= op <= 0x4F,
    ensures
        final(cpu).wf(),
        (final(cpu)@, cycles) == old(cpu)@.execute_plain(op as int),
{
    match op {
        0x40 => ld_operands(cpu, Operand::B, Operand::B),
        0x41 => ld_operands(cpu, Operand::B, Operand::C),
        0x42 => ld_operands(cpu, Operand::B, Operand::D),
        0x43 => ld_operands(cpu, Operand::B, Operand::E),
        0x44 => ld_operands(cpu, Operand::B, Operand::H),
        0x45 => ld_operands(cpu, Operand::B, Operand::L),
        0x46 => ld_operands(cpu, Operand::B, Operand::HL),
        0x47 => ld_operands(cpu, Operand::B, Operand::A),
        0x48 => ld_operands(cpu, Operand::C, Operand::B),
        0x49 => ld_operands(cpu, Operand::C, Operand::C),
        0x4A => ld_operands(cpu, Operand::C, Operand::D),
        0x4B => ld_operands(cpu, Operand::C, Operand::E),
        0x4C => ld_operands(cpu, Operand::C, Operand::H),
        0x4D => ld_operands(cpu, Operand::C, Operand::L),
        0x4E => ld_operands(cpu, Operand::C, Operand::HL),
        0x4F => ld_operands(cpu, Operand::C, Operand::A),
        _ => 0,
    }
}

/// Runs one of the opcodes 0x50 to 0x5F.
fn plain_50(cpu: &mut CPU, op: u8) -> (cycles: u8)
    requires
        old(cpu).wf(),
        0x50 <= op <= 0x5F,
    ensures
        final(cpu).wf(),
        (final(cpu)@, cycles) == old(cpu)@.execute_plain(op as int),
{
    match op {
        0x50 => ld_operands(cpu, Operand::D, Operand::B),
        0x51 => ld_operands(cpu, Operand::D, Operand::C),
        0x52 => ld_operands(cpu, Operand::D, Operand::D),
        0x53 => ld_operands(cpu, Operand::D, Operand::E),
        0x54 => ld_operands(cpu, Operand::D, Operand::H),
        0x55 => ld_operands(cpu, Operand::D, Operand::L),
        0x56 => ld_operands(cpu, Operand::D, Operand::HL),
        0x57 => ld_operands(cpu, Operand::D, Operand::A),
        0x58 => ld_operands(cpu, Operand::E, Operand::B),
        0x59 => ld_operands(cpu, Operand::E, Operand::C),
        0x5A => ld_operands(cpu, Operand::E, Operand::D),
        0x5B => ld_operands(cpu, Operand::E, Operand::E),
        0x5C => ld_operands(cpu, Operand::E, Operand::H),
        0x5D => ld_operands(cpu, Operand::E, Operand::L),
        0x5E => ld_operands(cpu, Operand::E, Operand::HL),
        0x5F => ld_operands(cpu, Operand::E, Operand::A),
        _ => 0,
    }
}

/// Runs one of the opcodes 0x60 to 0x6F.
fn plain_60(cpu: &mut CPU, op: u8) -> (cycles: u8)
    requires
        old(cpu).wf(),
        0x60 <= op <= 0x6F,
    ensures
        final(cpu).wf(),
        (final(cpu)@, cycles) == old(cpu)@.execute_plain(op as int),
{
    match op {
        0x60 => ld_operands(cpu, Operand::H, Operand::B),
        0x61 => ld_operands(cpu, Operand::H, Operand::C),
        0x62 => ld_operands(cpu, Operand::H, Operand::D),
        0x63 => ld_operands(cpu, Operand::H, Operand::E),
        0x64 => ld_operands(cpu, Operand::H, Operand::H),
        0x65 => ld_operands(cpu, Operand::H, Operand::L),
        0x66 => ld_operands(cpu, Operand::H, Operand::HL),
        0x67 => ld_operands(cpu, Operand::H, Operand::A),
        0x68 => ld_operands(cpu, Operand::L, Operand::B),
        0x69 => ld_operands(cpu, Operand::L, Operand::C),
        0x6A => ld_operands(cpu, Operand::L, Operand::D),
        0x6B => ld_operands(cpu, Operand::L, Operand::E),
        0x6C => ld_operands(cpu, Operand::L, Operand::H),
        0x6D => ld_operands(cpu, Operand::L, Operand::L),
        0x6E => ld_operands(cpu, Operand::L, Operand::HL),
        0x6F => ld_operands(cpu, Operand::L, Operand::A),
        _ => 0,
    }
}

/// Runs one of the opcodes 0x70 to 0x7F.
fn plain_70(cpu: &mut CPU, op: u8) -> (cycles: u8)
    requires
        old(cpu).wf(),
        0x70 <= op <= 0x7F,
    ensures
        final(cpu).wf(),
        (final(cpu)@, cycles) == old(cpu)@.execute_plain(op as int),
{
    match op {
        0x70 => ld_operands(cpu, Operand::HL, Operand::B),
        0x71 => ld_operands(cpu, Operand::HL, Operand::C),
        0x72 => ld_operands(cpu, Operand::HL, Operand::D),
        0x73 => ld_operands(cpu, Operand::HL, Operand::E),
        0x74 => ld_operands(cpu, Operand::HL, Operand::H),
        0x75 => ld_operands(cpu, Operand::HL, Operand::L),
        0x76 => halt(cpu),
        0x77 => ld_operands(cpu, Operand::HL, Operand::A),
        0x78 => ld_operands(cpu, Operand::A, Operand::B),
        0x79 => ld_operands(cpu, Operand::A, Operand::C),
        0x7A => ld_operands(cpu, Operand::A, Operand::D),
        0x7B => ld_operands(cpu, Operand::A, Operand::E),
        0x7C => ld_operands(cpu, Operand::A, Operand::H),
        0x7D => ld_operands(cpu, Operand::A, Operand::L),
        0x7E => ld_operands(cpu, Operand::A, Operand::HL),
        0x7F => ld_operands(cpu, Operand::A, Operand::A),
        _ => 0,
    }
}

/// Runs one of the opcodes 0x80 to 0x8F.
fn plain_80(cpu: &mut CPU, op: u8) -> (cycles: u8)
    requires
        old(cpu).wf(),
        0x80 <= op <= 0x8F,
    ensures
        final(cpu).wf(),
        (final(cpu)@, cycles) == old(cpu)@.execute_plain(op as int),
{
    match op {
        0x80 => alu_x(cpu, AluOp::Add, Operand::B),
        0x81 => alu_x(cpu, AluOp::Add, Operand::C),
        0x82 => alu_x(cpu, AluOp::Add, Operand::D),
        0x83 => alu_x(cpu, AluOp::Add, Operand::E),
        0x84 => alu_x(cpu, AluOp::Add, Operand::H),
        0x85 => alu_x(cpu, AluOp::Add, Operand::L),
        0x86 => add_a_phl(cpu),
        0x87 => alu_x(cpu, AluOp::Add, Operand::A),
        0x88 => alu_x(cpu, AluOp::Adc, Operand::B),
        0x89 => alu_x(cpu, AluOp::Adc, Operand::C),
        0x8A => alu_x(cpu, AluOp::Adc, Operand::D),
        0x8B => alu_x(cpu, AluOp::Adc, Operand::E),
        0x8C => alu_x(cpu, AluOp::Adc, Operand::H),
        0x8D => alu_x(cpu, AluOp::Adc, Operand::L),
        0x8E => adc_a_phl(cpu),
        0x8F => alu_x(cpu, AluOp::Adc, Operand::A),
        _ => 0,
    }
}

/// Runs one of the opcodes 0x90 to 0x9F.
fn plain_90(cpu: &mut CPU, op: u8) -> (cycles: u8)
    requires
        old(cpu).wf(),
        0x90 <= op <= 0x9F,
    ensures
        final(cpu).wf(),
        (final(cpu)@, cycles) == old(cpu)@.execute_plain(op as int),
{
    match op {
        0x90 => alu_x(cpu, AluOp::Sub, Operand::B),
        0x91 => alu_x(cpu, AluOp::Sub, Operand::C),
        0x92 => alu_x(cpu, AluOp::Sub, Operand::D),
        0x93 => alu_x(cpu, AluOp::Sub, Operand::E),
        0x94 => alu_x(cpu, AluOp::Sub, Operand::H),
        0x95 => alu_x(cpu, AluOp::Sub, Operand::L),
        0x96 => sub_phl(cpu),
        0x97 => alu_x(cpu, AluOp::Sub, Operand::A),
        0x98 => alu_x(cpu, AluOp::Sbc, Operand::B),
        0x99 => alu_x(cpu, AluOp::Sbc, Operand::C),
        0x9A => alu_x(cpu, AluOp::Sbc, Operand::D),
        0x9B => alu_x(cpu, AluOp::Sbc, Operand::E),
        0x9C => alu_x(cpu, AluOp::Sbc, Operand::H),
        0x9D => alu_x(cpu, AluOp::Sbc, Operand::L),
        0x9E => sbc_phl(cpu),
        0x9F => alu_x(cpu, AluOp::Sbc, Operand::A),
        _ => 0,
    }
}

/// Runs one of the opcodes 0xA0 to 0xAF.
fn plain_a0(cpu: &mut CPU, op: u8) -> (cycles: u8)
    requires
        old(cpu).wf(),
        0xA0 <= op <= 0xAF,
    ensures
        final(cpu).wf(),
        (final(cpu)@, cycles) == old(cpu)@.execute_plain(op as int),
{
    match op {
        0xA0 => alu_x(cpu, AluOp::And, Operand::B),
        0xA1 => alu_x(cpu, AluOp::And, Operand::C),
        0xA2 => alu_x(cpu, AluOp::And, Operand::D),
        0xA3 => alu_x(cpu, AluOp::And, Operand::E),
        0xA4 => alu_x(cpu, AluOp::And, Operand::H),
        0xA5 => alu_x(cpu, AluOp::And, Operand::L),
        0xA6 => and_phl(cpu),
        0xA7 => alu_x(cpu, AluOp::And, Operand::A),
        0xA8 => alu_x(cpu, AluOp::Xor, Operand::B),
        0xA9 => alu_x(cpu, AluOp::Xor, Operand::C),
        0xAA => alu_x(cpu, AluOp::Xor, Operand::D),
        0xAB => alu_x(cpu, AluOp::Xor, Operand::E),
        0xAC => alu_x(cpu, AluOp::Xor, Operand::H),
        0xAD => alu_x(cpu, AluOp::Xor, Operand::L),
        0xAE => xor_hl(cpu),
        0xAF => alu_x(cpu, AluOp::Xor, Operand::A),
        _ => 0,
    }
}

/// Runs one of the opcodes 0xB0 to 0xBF.
fn plain_b0(cpu: &mut CPU, op: u8) -> (cycles: u8)
    requires
        old(cpu).wf(),
        0xB0 <= op <= 0xBF,
    ensures
        final(cpu).wf(),
        (final(cpu)@, cycles) == old(cpu)@.execute_plain(op as int),
{
    match op {
        0xB0 => alu_x(cpu, AluOp::Or, Operand::B),
        0xB1 => alu_x(cpu, AluOp::Or, Operand::C),
        0xB2 => alu_x(cpu, AluOp::Or, Operand::D),
        0xB3 => alu_x(cpu, AluOp::Or, Operand::E),
        0xB4 => alu_x(cpu, AluOp::Or, Operand::H),
        0xB5 => alu_x(cpu, AluOp::Or, Operand::L),
        0xB6 => or_phl(cpu),
        0xB7 => alu_x(cpu, AluOp::Or, Operand::A),
        0xB8 => alu_x(cpu, AluOp::Cp, Operand::B),
        0xB9 => alu_x(cpu, AluOp::Cp, Operand::C),
        0xBA => alu_x(cpu, AluOp::Cp, Operand::D),
        0xBB => alu_x(cpu, AluOp::Cp, Operand::E),
        0xBC => alu_x(cpu, AluOp::Cp, Operand::H),
        0xBD => alu_x(cpu, AluOp::Cp, Operand::L),
        0xBE => cp_phl(cpu),
        0xBF => alu_x(cpu, AluOp::Cp, Operand::A),
        _ => 0,
    }
}

/// Runs one of the opcodes 0xC0 to 0xCF.
fn plain_c0(cpu: &mut CPU, op: u8) -> (cycles: u8)
    requires
        old(cpu).wf(),
        0xC0 <= op <= 0xCF,
        !is_unused(op as int),
        op != 0xCB,
    ensures
        final(cpu).wf(),
        (final(cpu)@, cycles) == old(cpu)@.execute_plain(op as int),
{
    match op {
        0xC0 => ret_nz(cpu),
        0xC1 => pop_bc(cpu),
        0xC2 => jp_nz_nn(cpu),
        0xC3 => jmp_nn(cpu),
        0xC4 => call_nz_nn(cpu),
        0xC5 => push_bc(cpu),
        0xC6 => add_a_n(cpu),
        0xC7 => rst(cpu, 0x00),
        0xC8 => ret_z(cpu),
        0xC9 => ret(cpu),
        0xCA => jp_z_nn(cpu),
        0xCC => call_z_nn(cpu),
        0xCD => call_nn(cpu),
        0xCE => adc_a_n(cpu),
        0xCF => rst(cpu, 0x08),
        _ => 0,
    }
}

/// Runs one of the opcodes 0xD0 to 0xDF.
fn plain_d0(cpu: &mut CPU, op: u8) -> (cycles: u8)
    requires
        old(cpu).wf(),
        0xD0 <= op <= 0xDF,
        !is_unused(op as int),
        op != 0xCB,
    ensures
        final(cpu).wf(),
        (final(cpu)@, cycles) == old(cpu)@.execute_plain(op as int),
{
    match op {
        0xD0 => ret_nc(cpu),
        0xD1 => pop_de(cpu),
        0xD2 => jp_nc_nn(cpu),
        0xD4 => call_nc_nn(cpu),
        0xD5 => push_de(cpu),
        0xD6 => sub_a_n(cpu),
        0xD7 => rst(cpu, 0x10),
        0xD8 => ret_c(cpu),
        0xD9 => reti(cpu),
        0xDA => jp_c_nn(cpu),
        0xDC => call_c_nn(cpu),
        0xDE => sbc_n(cpu),
        0xDF => rst(cpu, 0x18),
        _ => 0,
    }
}

/// Runs one of the opcodes 0xE0 to 0xEF.
fn plain_e0(cpu: &mut CPU, op: u8) -> (cycles: u8)
    requires
        old(cpu).wf(),
        0xE0 <= op <= 0xEF,
        !is_unused(op as int),
        op != 0xCB,
    ensures
        final(cpu).wf(),
        (final(cpu)@, cycles) == old(cpu)@.execute_plain(op as int),
{
    match op {
        0xE0 => ldh_pn_a(cpu),
        0xE1 => pop_hl(cpu),
        0xE2 => ld_pc(cpu),
        0xE5 => push_hl(cpu),
        0xE6 => and_n(cpu),
        0xE7 => rst(cpu, 0x20),
        0xE8 => add_sp_ns(cpu),
        0xE9 => jmp_hl(cpu),
        0xEA => ld_pnn_a(cpu),
        0xEE => xor_n(cpu),
        0xEF => rst(cpu, 0x28),
        _ => 0,
    }
}

/// Runs one of the opcodes 0xF0 to 0xFF.
fn plain_f0(cpu: &mut CPU, op: u8) -> (cycles: u8)
    requires
        old(cpu).wf(),
        0xF0 <= op <= 0xFF,
        !is_unused(op as int),
        op != 0xCB,
    ensures
        final(cpu).wf(),
        (final(cpu)@, cycles) == old(cpu)@.execute_plain(op as int),
{
    match op {
        0xF0 => ldh_a_pn(cpu),
        0xF1 => pop_af(cpu),
        0xF2 => ld_a_ptrc(cpu),
        0xF3 => di(cpu),
        0xF5 => push_af(cpu),
        0xF6 => or_n(cpu),
        0xF7 => rst(cpu, 0x30),
        0xF8 => ldhl_sp_n(cpu),
        0xF9 => ld_sp_hl(cpu),
        0xFA => ld_a_pnn(cpu),
        0xFB => ei(cpu),
        0xFE => cp_n(cpu),
        0xFF => rst(cpu, 0x38),
        _ => 0,
    }
}

/// Runs one of the prefixed opcodes 0x00 to 0x0F.
fn prefixed_00(cpu: &mut CPU, op: u8) -> (cycles: u8)
    requires
        old(cpu).wf(),
        0x00 <= op <= 0x0F,
    ensures
        final(cpu).wf(),
        (final(cpu)@, cycles) == old(cpu)@.execute_prefixed(op as int),
{
    match op {
        0x00 => shift_x(cpu, ShiftOp::Rlc, Operand::B),
        0x01 => shift_x(cpu, ShiftOp::Rlc, Operand::C),
        0x02 => shift_x(cpu, ShiftOp::Rlc, Operand::D),
        0x03 => shift_x(cpu, ShiftOp::Rlc, Operand::E),
        0x04 => shift_x(cpu, ShiftOp::Rlc, Operand::H),
        0x05 => shift_x(cpu, ShiftOp::Rlc, Operand::L),
        0x06 => rlc_phl(cpu),
        0x07 => shift_x(cpu, ShiftOp::Rlc, Operand::A),
        0x08 => shift_x(cpu, ShiftOp::Rrc, Operand::B),
        0x09 => shift_x(cpu, ShiftOp::Rrc, Operand::C),
        0x0A => shift_x(cpu, ShiftOp::Rrc, Operand::D),
        0x0B => shift_x(cpu, ShiftOp::Rrc, Operand::E),
        0x0C => shift_x(cpu, ShiftOp::Rrc, Operand::H),
        0x0D => shift_x(cpu, ShiftOp::Rrc, Operand::L),
        0x0E => rrc_phl(cpu),
        0x0F => shift_x(cpu, ShiftOp::Rrc, Operand::A),
        _ => 0,
    }
}

/// Runs one of the prefixed opcodes 0x10 to 0x1F.
fn prefixed_10(cpu: &mut CPU, op: u8) -> (cycles: u8)
    requires
        old(cpu).wf(),
        0x10 <= op <= 0x1F,
    ensures
        final(cpu).wf(),
        (final(cpu)@, cycles) == old(cpu)@.execute_prefixed(op as int),
{
    match op {
        0x10 => shift_x(cpu, ShiftOp::Rl, Operand::B),
        0x11 => shift_x(cpu, ShiftOp::Rl, Operand::C),
        0x12 => shift_x(cpu, ShiftOp::Rl, Operand::D),
        0x13 => shift_x(cpu, ShiftOp::Rl, Operand::E),
        0x14 => shift_x(cpu, ShiftOp::Rl, Operand::H),
        0x15 => shift_x(cpu, ShiftOp::Rl, Operand::L),
        0x16 => rl_phl(cpu),
        0x17 => shift_x(cpu, ShiftOp::Rl, Operand::A),
        0x18 => shift_x(cpu, ShiftOp::Rr, Operand::B),
        0x19 => shift_x(cpu, ShiftOp::Rr, Operand::C),
        0x1A => shift_x(cpu, ShiftOp::Rr, Operand::D),
        0x1B => shift_x(cpu, ShiftOp::Rr, Operand::E),
        0x1C => shift_x(cpu, ShiftOp::Rr, Operand::H),
        0x1D => shift_x(cpu, ShiftOp::Rr, Operand::L),
        0x1E => rr_phl(cpu),
        0x1F => shift_x(cpu, ShiftOp::Rr, Operand::A),
        _ => 0,
    }
}

/// Runs one of the prefixed opcodes 0x20 to 0x2F.
fn prefixed_20(cpu: &mut CPU, op: u8) -> (cycles: u8)
    requires
        old(cpu).wf(),
        0x20 <= op <= 0x2F,
    ensures
        final(cpu).wf(),
        (final(cpu)@, cycles) == old(cpu)@.execute_prefixed(op as int),
{
    match op {
        0x20 => sla_x(cpu, Operand::B),
        0x21 => sla_x(cpu, Operand::C),
        0x22 => sla_x(cpu, Operand::D),
        0x23 => sla_x(cpu, Operand::E),
        0x24 => sla_x(cpu, Operand::H),
        0x25 => sla_x(cpu, Operand::L),
        0x26 => sla_x(cpu, Operand::HL),
        0x27 => sla_x(cpu, Operand::A),
        0x28 => sra_x(cpu, Operand::B),
        0x29 => sra_x(cpu, Operand::C),
        0x2A => sra_x(cpu, Operand::D),
        0x2B => sra_x(cpu, Operand::E),
        0x2C => sra_x(cpu, Operand::H),
        0x2D => sra_x(cpu, Operand::L),
        0x2E => sra_x(cpu, Operand::HL),
        0x2F => sra_x(cpu, Operand::A),
        _ => 0,
    }
}

/// Runs one of the prefixed opcodes 0x30 to 0x3F.
fn prefixed_30(cpu: &mut CPU, op: u8) -> (cycles: u8)
    requires
        old(cpu).wf(),
        0x30 <= op <= 0x3F,
    ensures
        final(cpu).wf(),
        (final(cpu)@, cycles) == old(cpu)@.execute_prefixed(op as int),
{
    match op {
        0x30 => swap_x(cpu, Operand::B),
        0x31 => swap_x(cpu, Operand::C),
        0x32 => swap_x(cpu, Operand::D),
        0x33 => swap_x(cpu, Operand::E),
        0x34 => swap_x(cpu, Operand::H),
        0x35 => swap_x(cpu, Operand::L),
        0x36 => swap_phl(cpu),
        0x37 => swap_x(cpu, Operand::A),
        0x38 => srl_x(cpu, Operand::B),
        0x39 => srl_x(cpu, Operand::C),
        0x3A => srl_x(cpu, Operand::D),
        0x3B => srl_x(cpu, Operand::E),
        0x3C => srl_x(cpu, Operand::H),
        0x3D => srl_x(cpu, Operand::L),
        0x3E => srl_x(cpu, Operand::HL),
        0x3F => srl_x(cpu, Operand::A),
        _ => 0,
    }
}

/// Runs one of the prefixed opcodes 0x40 to 0x4F.
fn prefixed_40(cpu: &mut CPU, op: u8) -> (cycles: u8)
    requires
        old(cpu).wf(),
        0x40 <= op <= 0x4F,
    ensures
        final(cpu).wf(),
        (final(cpu)@, cycles) == old(cpu)@.execute_prefixed(op as int),
{
    match op {
        0x40 => bit_x(cpu, 0, Operand::B),
        0x41 => bit_x(cpu, 0, Operand::C),
        0x42 => bit_x(cpu, 0, Operand::D),
        0x43 => bit_x(cpu, 0, Operand::E),
        0x44 => bit_x(cpu, 0, Operand::H),
        0x45 => bit_x(cpu, 0, Operand::L),
        0x46 => bit_phl(cpu, 0),
        0x47 => bit_x(cpu, 0, Operand::A),
        0x48 => bit_x(cpu, 1, Operand::B),
        0x49 => bit_x(cpu, 1, Operand::C),
        0x4A => bit_x(cpu, 1, Operand::D),
        0x4B => bit_x(cpu, 1, Operand::E),
        0x4C => bit_x(cpu, 1, Operand::H),
        0x4D => bit_x(cpu, 1, Operand::L),
        0x4E => bit_phl(cpu, 1),
        0x4F => bit_x(cpu, 1, Operand::A),
        _ => 0,
    }
}

/// Runs one of the prefixed opcodes 0x50 to 0x5F.
fn prefixed_50(cpu: &mut CPU, op: u8) -> (cycles: u8)
    requires
        old(cpu).wf(),
        0x50 <= op <= 0x5F,
    ensures
        final(cpu).wf(),
        (final(cpu)@, cycles) == old(cpu)@.execute_prefixed(op as int),
{
    match op {
        0x50 => bit_x(cpu, 2, Operand::B),
        0x51 => bit_x(cpu, 2, Operand::C),
        0x52 => bit_x(cpu, 2, Operand::D),
        0x53 => bit_x(cpu, 2, Operand::E),
        0x54 => bit_x(cpu, 2, Operand::H),
        0x55 => bit_x(cpu, 2, Operand::L),
        0x56 => bit_phl(cpu, 2),
        0x57 => bit_x(cpu, 2, Operand::A),
        0x58 => bit_x(cpu, 3, Operand::B),
        0x59 => bit_x(cpu, 3, Operand::C),
        0x5A => bit_x(cpu, 3, Operand::D),
        0x5B => bit_x(cpu, 3, Operand::E),
        0x5C => bit_x(cpu, 3, Operand::H),
        0x5D => bit_x(cpu, 3, Operand::L),
        0x5E => bit_phl(cpu, 3),
        0x5F => bit_x(cpu, 3, Operand::A),
        _ => 0,
    }
}

/// Runs one of the prefixed opcodes 0x60 to 0x6F.
fn prefixed_60(cpu: &mut CPU, op: u8) -> (cycles: u8)
    requires
        old(cpu).wf(),
        0x60 <= op <= 0x6F,
    ensures
        final(cpu).wf(),
        (final(cpu)@, cycles) == old(cpu)@.execute_prefixed(op as int),
{
    match op {
        0x60 => bit_x(cpu, 4, Operand::B),
        0x61 => bit_x(cpu, 4, Operand::C),
        0x62 => bit_x(cpu, 4, Operand::D),
        0x63 => bit_x(cpu, 4, Operand::E),
        0x64 => bit_x(cpu, 4, Operand::H),
        0x65 => bit_x(cpu, 4, Operand::L),
        0x66 => bit_phl(cpu, 4),
        0x67 => bit_x(cpu, 4, Operand::A),
        0x68 => bit_x(cpu, 5, Operand::B),
        0x69 => bit_x(cpu, 5, Operand::C),
        0x6A => bit_x(cpu, 5, Operand::D),
        0x6B => bit_x(cpu, 5, Operand::E),
        0x6C => bit_x(cpu, 5, Operand::H),
        0x6D => bit_x(cpu, 5, Operand::L),
        0x6E => bit_phl(cpu, 5),
        0x6F => bit_x(cpu, 5, Operand::A),
        _ => 0,
    }
}

/// Runs one of the prefixed opcodes 0x70 to 0x7F.
fn prefixed_70(cpu: &mut CPU, op: u8) -> (cycles: u8)
    requires
        old(cpu).wf(),
        0x70 <= op <= 0x7F,
    ensures
        final(cpu).wf(),
        (final(cpu)@, cycles) == old(cpu)@.execute_prefixed(op as int),
{
    match op {
        0x70 => bit_x(cpu, 6, Operand::B),
        0x71 => bit_x(cpu, 6, Operand::C),
        0x72 => bit_x(cpu, 6, Operand::D),
        0x73 => bit_x(cpu, 6, Operand::E),
        0x74 => bit_x(cpu, 6, Operand::H),
        0x75 => bit_x(cpu, 6, Operand::L),
        0x76 => bit_phl(cpu, 6),
        0x77 => bit_x(cpu, 6, Operand::A),
        0x78 => bit_x(cpu, 7, Operand::B),
        0x79 => bit_x(cpu, 7, Operand::C),
        0x7A => bit_x(cpu, 7, Operand::D),
        0x7B => bit_x(cpu, 7, Operand::E),
        0x7C => bit_x(cpu, 7, Operand::H),
        0x7D => bit_x(cpu, 7, Operand::L),
        0x7E => bit_phl(cpu, 7),
        0x7F => bit_x(cpu, 7, Operand::A),
        _ => 0,
    }
}

/// Runs one of the prefixed opcodes 0x80 to 0x8F.
fn prefixed_80(cpu: &mut CPU, op: u8) -> (cycles: u8)
    requires
        old(cpu).wf(),
        0x80 <= op <= 0x8F,
    ensures
        final(cpu).wf(),
        (final(cpu)@, cycles) == old(cpu)@.execute_prefixed(op as int),
{
    match op {
        0x80 => res_x(cpu, 0, Operand::B),
        0x81 => res_x(cpu, 0, Operand::C),
        0x82 => res_x(cpu, 0, Operand::D),
        0x83 => res_x(cpu, 0, Operand::E),
        0x84 => res_x(cpu, 0, Operand::H),
        0x85 => res_x(cpu, 0, Operand::L),
        0x86 => res_x_hl(cpu, 0),
        0x87 => res_x(cpu, 0, Operand::A),
        0x88 => res_x(cpu, 1, Operand::B),
        0x89 => res_x(cpu, 1, Operand::C),
        0x8A => res_x(cpu, 1, Operand::D),
        0x8B => res_x(cpu, 1, Operand::E),
        0x8C => res_x(cpu, 1, Operand::H),
        0x8D => res_x(cpu, 1, Operand::L),
        0x8E => res_x_hl(cpu, 1),
        0x8F => res_x(cpu, 1, Operand::A),
        _ => 0,
    }
}

/// Runs one of the prefixed opcodes 0x90 to 0x9F.
fn prefixed_90(cpu: &mut CPU, op: u8) -> (cycles: u8)
    requires
        old(cpu).wf(),
        0x90 <= op <= 0x9F,
    ensures
        final(cpu).wf(),
        (final(cpu)@, cycles) == old(cpu)@.execute_prefixed(op as int),
{
    match op {
        0x90 => res_x(cpu, 2, Operand::B),
        0x91 => res_x(cpu, 2, Operand::C),
        0x92 => res_x(cpu, 2, Operand::D),
        0x93 => res_x(cpu, 2, Operand::E),
        0x94 => res_x(cpu, 2, Operand::H),
        0x95 => res_x(cpu, 2, Operand::L),
        0x96 => res_x_hl(cpu, 2),
        0x97 => res_x(cpu, 2, Operand::A),
        0x98 => res_x(cpu, 3, Operand::B),
        0x99 => res_x(cpu, 3, Operand::C),
        0x9A => res_x(cpu, 3, Operand::D),
        0x9B => res_x(cpu, 3, Operand::E),
        0x9C => res_x(cpu, 3, Operand::H),
        0x9D => res_x(cpu, 3, Operand::L),
        0x9E => res_x_hl(cpu, 3),
        0x9F => res_x(cpu, 3, Operand::A),
        _ => 0,
    }
}

/// Runs one of the prefixed opcodes 0xA0 to 0xAF.
fn prefixed_a0(cpu: &mut CPU, op: u8) -> (cycles: u8)
    requires
        old(cpu).wf(),
        0xA0 <= op <= 0xAF,
    ensures
        final(cpu).wf(),
        (final(cpu)@, cycles) == old(cpu)@.execute_prefixed(op as int),
{
    match op {
        0xA0 => res_x(cpu, 4, Operand::B),
        0xA1 => res_x(cpu, 4, Operand::C),
        0xA2 => res_x(cpu, 4, Operand::D),
        0xA3 => res_x(cpu, 4, Operand::E),
        0xA4 => res_x(cpu, 4, Operand::H),
        0xA5 => res_x(cpu, 4, Operand::L),
        0xA6 => res_x_hl(cpu, 4),
        0xA7 => res_x(cpu, 4, Operand::A),
        0xA8 => res_x(cpu, 5, Operand::B),
        0xA9 => res_x(cpu, 5, Operand::C),
        0xAA => res_x(cpu, 5, Operand::D),
        0xAB => res_x(cpu, 5, Operand::E),
        0xAC => res_x(cpu, 5, Operand::H),
        0xAD => res_x(cpu, 5, Operand::L),
        0xAE => res_x_hl(cpu, 5),
        0xAF => res_x(cpu, 5, Operand::A),
        _ => 0,
    }
}

/// Runs one of the prefixed opcodes 0xB0 to 0xBF.
fn prefixed_b0(cpu: &mut CPU, op: u8) -> (cycles: u8)
    requires
        old(cpu).wf(),
        0xB0 <= op <= 0xBF,
    ensures
        final(cpu).wf(),
        (final(cpu)@, cycles) == old(cpu)@.execute_prefixed(op as int),
{
    match op {
        0xB0 => res_x(cpu, 6, Operand::B),
        0xB1 => res_x(cpu, 6, Operand::C),
        0xB2 => res_x(cpu, 6, Operand::D),
        0xB3 => res_x(cpu, 6, Operand::E),
        0xB4 => res_x(cpu, 6, Operand::H),
        0xB5 => res_x(cpu, 6, Operand::L),
        0xB6 => res_x_hl(cpu, 6),
        0xB7 => res_x(cpu, 6, Operand::A),
        0xB8 => res_x(cpu, 7, Operand::B),
        0xB9 => res_x(cpu, 7, Operand::C),
        0xBA => res_x(cpu, 7, Operand::D),
        0xBB => res_x(cpu, 7, Operand::E),
        0xBC => res_x(cpu, 7, Operand::H),
        0xBD => res_x(cpu, 7, Operand::L),
        0xBE => res_x_hl(cpu, 7),
        0xBF => res_x(cpu, 7, Operand::A),
        _ => 0,
    }
}

/// Runs one of the prefixed opcodes 0xC0 to 0xCF.
fn prefixed_c0(cpu: &mut CPU, op: u8) -> (cycles: u8)
    requires
        old(cpu).wf(),
        0xC0 <= op <= 0xCF,
    ensures
        final(cpu).wf(),
        (final(cpu)@, cycles) == old(cpu)@.execute_prefixed(op as int),
{
    match op {
        0xC0 => set_x(cpu, 0, Operand::B),
        0xC1 => set_x(cpu, 0, Operand::C),
        0xC2 => set_x(cpu, 0, Operand::D),
        0xC3 => set_x(cpu, 0, Operand::E),
        0xC4 => set_x(cpu, 0, Operand::H),
        0xC5 => set_x(cpu, 0, Operand::L),
        0xC6 => set_x_hl(cpu, 0),
        0xC7 => set_x(cpu, 0, Operand::A),
        0xC8 => set_x(cpu, 1, Operand::B),
        0xC9 => set_x(cpu, 1, Operand::C),
        0xCA => set_x(cpu, 1, Operand::D),
        0xCB => set_x(cpu, 1, Operand::E),
        0xCC => set_x(cpu, 1, Operand::H),
        0xCD => set_x(cpu, 1, Operand::L),
        0xCE => set_x_hl(cpu, 1),
        0xCF => set_x(cpu, 1, Operand::A),
        _ => 0,
    }
}

/// Runs one of the prefixed opcodes 0xD0 to 0xDF.
fn prefixed_d0(cpu: &mut CPU, op: u8) -> (cycles: u8)
    requires
        old(cpu).wf(),
        0xD0 <= op <= 0xDF,
    ensures
        final(cpu).wf(),
        (final(cpu)@, cycles) == old(cpu)@.execute_prefixed(op as int),
{
    match op {
        0xD0 => set_x(cpu, 2, Operand::B),
        0xD1 => set_x(cpu, 2, Operand::C),
        0xD2 => set_x(cpu, 2, Operand::D),
        0xD3 => set_x(cpu, 2, Operand::E),
        0xD4 => set_x(cpu, 2, Operand::H),
        0xD5 => set_x(cpu, 2, Operand::L),
        0xD6 => set_x_hl(cpu, 2),
        0xD7 => set_x(cpu, 2, Operand::A),
        0xD8 => set_x(cpu, 3, Operand::B),
        0xD9 => set_x(cpu, 3, Operand::C),
        0xDA => set_x(cpu, 3, Operand::D),
        0xDB => set_x(cpu, 3, Operand::E),
        0xDC => set_x(cpu, 3, Operand::H),
        0xDD => set_x(cpu, 3, Operand::L),
        0xDE => set_x_hl(cpu, 3),
        0xDF => set_x(cpu, 3, Operand::A),
        _ => 0,
    }
}

/// Runs one of the prefixed opcodes 0xE0 to 0xEF.
fn prefixed_e0(cpu: &mut CPU, op: u8) -> (cycles: u8)
    requires
        old(cpu).wf(),
        0xE0 <= op <= 0xEF,
    ensures
        final(cpu).wf(),
        (final(cpu)@, cycles) == old(cpu)@.execute_prefixed(op as int),
{
    match op {
        0xE0 => set_x(cpu, 4, Operand::B),
        0xE1 => set_x(cpu, 4, Operand::C),
        0xE2 => set_x(cpu, 4, Operand::D),
        0xE3 => set_x(cpu, 4, Operand::E),
        0xE4 => set_x(cpu, 4, Operand::H),
        0xE5 => set_x(cpu, 4, Operand::L),
        0xE6 => set_x_hl(cpu, 4),
        0xE7 => set_x(cpu, 4, Operand::A),
        0xE8 => set_x(cpu, 5, Operand::B),
        0xE9 => set_x(cpu, 5, Operand::C),
        0xEA => set_x(cpu, 5, Operand::D),
        0xEB => set_x(cpu, 5, Operand::E),
        0xEC => set_x(cpu, 5, Operand::H),
        0xED => set_x(cpu, 5, Operand::L),
        0xEE => set_x_hl(cpu, 5),
        0xEF => set_x(cpu, 5, Operand::A),
        _ => 0,
    }
}

/// Runs one of the prefixed opcodes 0xF0 to 0xFF.
fn prefixed_f0(cpu: &mut CPU, op: u8) -> (cycles: u8)
    requires
        old(cpu).wf(),
        0xF0 <= op <= 0xFF,
    ensures
        final(cpu).wf(),
        (final(cpu)@, cycles) == old(cpu)@.execute_prefixed(op as int),
{
    match op {
        0xF0 => set_x(cpu, 6, Operand::B),
        0xF1 => set_x(cpu, 6, Operand::C),
        0xF2 => set_x(cpu, 6, Operand::D),
        0xF3 => set_x(cpu, 6, Operand::E),
        0xF4 => set_x(cpu, 6, Operand::H),
        0xF5 => set_x(cpu, 6, Operand::L),
        0xF6 => set_x_hl(cpu, 6),
        0xF7 => set_x(cpu, 6, Operand::A),
        0xF8 => set_x(cpu, 7, Operand::B),
        0xF9 => set_x(cpu, 7, Operand::C),
        0xFA => set_x(cpu, 7, Operand::D),
        0xFB => set_x(cpu, 7, Operand::E),
        0xFC => set_x(cpu, 7, Operand::H),
        0xFD => set_x(cpu, 7, Operand::L),
        0xFE => set_x_hl(cpu, 7),
        0xFF => set_x(cpu, 7, Operand::A),
        _ => 0,
    }
}

/// Whether the instruction word `instr` names an instruction.
pub fn is_known(instr: u16) -> (known: bool)
    ensures
        known == is_defined(instr),
{
    if instr % 256 == 0xCB {
        true
    } else if instr >= 256 {
        false
    } else {
        match instr {
            0xD3 | 0xDB | 0xDD | 0xE3 | 0xE4 | 0xEB | 0xEC | 0xED | 0xF4 | 0xFC | 0xFD => false,
            _ => true,
        }
    }
}

/// Runs the instruction `instr`, which was fetched from `origin`, and
/// returns the cycles that it took.
pub fn execute_instruction(cpu: &mut CPU, instr: u16, origin: u16) -> (cycles: u8)
    requires
        old(cpu).wf(),
        is_defined(instr),
    ensures
        final(cpu).wf(),
        (final(cpu)@, cycles) == old(cpu)@.execute(instr),
        4 <= cycles <= 24,
{
    proof {
        reveal(CpuView::execute);
        lemma_cycles(cpu@, instr);
    }
    if instr % 256 == 0xCB {
        let op: u8 = (instr / 256) as u8;
        match op / 16 {
            0x0 => prefixed_00(cpu, op),
            0x1 => prefixed_10(cpu, op),
            0x2 => prefixed_20(cpu, op),
            0x3 => prefixed_30(cpu, op),
            0x4 => prefixed_40(cpu, op),
            0x5 => prefixed_50(cpu, op),
            0x6 => prefixed_60(cpu, op),
            0x7 => prefixed_70(cpu, op),
            0x8 => prefixed_80(cpu, op),
            0x9 => prefixed_90(cpu, op),
            0xA => prefixed_a0(cpu, op),
            0xB => prefixed_b0(cpu, op),
            0xC => prefixed_c0(cpu, op),
            0xD => prefixed_d0(cpu, op),
            0xE => prefixed_e0(cpu, op),
            _ => prefixed_f0(cpu, op),
        }
    } else {
        let op: u8 = instr as u8;
        match op / 16 {
            0x0 => plain_00(cpu, op),
            0x1 => plain_10(cpu, op),
            0x2 => plain_20(cpu, op),
            0x3 => plain_30(cpu, op),
            0x4 => plain_40(cpu, op),
            0x5 => plain_50(cpu, op),
            0x6 => plain_60(cpu, op),
            0x7 => plain_70(cpu, op),
            0x8 => plain_80(cpu, op),
            0x9 => plain_90(cpu, op),
            0xA => plain_a0(cpu, op),
            0xB => plain_b0(cpu, op),
            0xC => plain_c0(cpu, op),
            0xD => plain_d0(cpu, op),
            0xE => plain_e0(cpu, op),
            _ => plain_f0(cpu, op),
        }
    }
}

/// Every instruction takes at least 4 and at most 24 cycles.
pub proof fn lemma_cycles(cpu: CpuView, instr: u16)
    ensures
        4 <= cpu.execute(instr).1 <= 24,
{
    reveal(CpuView::execute);
    reveal(CpuView::add_hl);
    reveal(CpuView::add_sp);
    reveal(CpuView::alu_immediate);
    reveal(CpuView::alu_operand);
    reveal(CpuView::bit_reset);
    reveal(CpuView::bit_set);
    reveal(CpuView::bit_test);
    reveal(CpuView::call);
    reveal(CpuView::ccf);
    reveal(CpuView::cpl);
    reveal(CpuView::daa);
    reveal(CpuView::dec16);
    reveal(CpuView::dec8);
    reveal(CpuView::di);
    reveal(CpuView::ei);
    reveal(CpuView::halt);
    reveal(CpuView::inc16);
    reveal(CpuView::inc8);
    reveal(CpuView::jp);
    reveal(CpuView::jp_hl);
    reveal(CpuView::jr);
    reveal(CpuView::ld);
    reveal(CpuView::ld_a_at);
    reveal(CpuView::ld_a_hl_step);
    reveal(CpuView::ld_a_pc);
    reveal(CpuView::ld_a_pnn);
    reveal(CpuView::ld_at_a);
    reveal(CpuView::ld_hl_a_step);
    reveal(CpuView::ld_immediate);
    reveal(CpuView::ld_pair_immediate);
    reveal(CpuView::ld_pc_a);
    reveal(CpuView::ld_pnn_a);
    reveal(CpuView::ld_pnn_sp);
    reveal(CpuView::ld_sp_hl);
    reveal(CpuView::ldh_a_pn);
    reveal(CpuView::ldh_pn_a);
    reveal(CpuView::ldhl_sp_n);
    reveal(CpuView::nop);
    reveal(CpuView::pop_pair);
    reveal(CpuView::push_pair);
    reveal(CpuView::ret);
    reveal(CpuView::reti);
    reveal(CpuView::rst);
    reveal(CpuView::scf);
    reveal(CpuView::shifted);
    reveal(CpuView::shifted_a);
    reveal(CpuView::stop);
}

} // verus!
