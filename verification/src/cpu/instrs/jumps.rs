//! Operations to branch code.
use crate::cpu::cpu::add16;
use crate::cpu::cpu::signed;
use crate::cpu::cpu::CpuView;
use crate::cpu::cpu::CPU;
use crate::cpu::instrs::loads16::lemma_ram_keeps_short;
use crate::cpu::instrs::utils::get_n;
use crate::cpu::instrs::utils::get_nn;
use crate::cpu::instrs::utils::offset_by;
use crate::cpu::instrs::utils::test_condition;
use crate::cpu::instrs::utils::Condition;
use crate::mem::MemView;
use vstd::prelude::*;

verus! {

impl CpuView {
    /// Whether a jump with the condition `condition` is taken; one without
    /// a condition always is.
    pub open spec fn takes(self, condition: Option<Condition>) -> bool {
        match condition {
            Some(condition) => self.holds(condition),
            None => true,
        }
    }

    /// JR n and JR cc,n: a jump by the signed byte that follows the
    /// opcode, counted from the instruction that follows.
    #[verifier::opaque]
    pub open spec fn jr(self, condition: Option<Condition>) -> (CpuView, u8) {
        if self.takes(condition) {
            (self.with_pc(add16(add16(self.regs.pc, 1), signed(self.immediate()))), 12)
        } else {
            (self.advanced(1), 8)
        }
    }

    /// JP nn and JP cc,nn: a jump to the address that follows the opcode.
    #[verifier::opaque]
    pub open spec fn jp(self, condition: Option<Condition>) -> (CpuView, u8) {
        if self.takes(condition) {
            (self.with_pc(self.immediate16()), 16)
        } else {
            (self.advanced(2), 12)
        }
    }

    /// CALL nn and CALL cc,nn: the address of the next instruction is
    /// pushed, and the address that follows the opcode is jumped to.
    #[verifier::opaque]
    pub open spec fn call(self, condition: Option<Condition>) -> (CpuView, u8) {
        if self.takes(condition) {
            (self.pushed(add16(self.regs.pc, 2)).with_pc(self.immediate16()), 24)
        } else {
            (self.advanced(2), 12)
        }
    }

    /// RET: the address on top of the stack is taken off and jumped to.
    pub open spec fn returned(self) -> CpuView {
        self.dropped().with_pc(self.top())
    }

    /// RET and RET cc
    #[verifier::opaque]
    pub open spec fn ret(self, condition: Option<Condition>) -> (CpuView, u8) {
        match condition {
            None => (self.returned(), 16),
            Some(condition) => if self.holds(condition) {
                (self.returned(), 20)
            } else {
                (self, 8)
            },
        }
    }

    /// RETI: a return that enables the interrupts again, after the
    /// instruction that follows.
    #[verifier::opaque]
    pub open spec fn reti(self) -> (CpuView, u8) {
        (CpuView { interrupts_countdown: 1, ..self.returned() }, 16)
    }

    /// JP (HL)
    #[verifier::opaque]
    pub open spec fn jp_hl(self) -> (CpuView, u8) {
        (self.with_pc(self.regs.hl()), 4)
    }

    /// RST: the program counter is pushed, and the address `step` is
    /// jumped to.
    #[verifier::opaque]
    pub open spec fn rst(self, step: u16) -> (CpuView, u8) {
        (self.pushed(self.regs.pc).with_pc(step), 16)
    }
}

/// *JR n*, *JR cc,n* - Jump to pc+n
pub fn jr_x(cpu: &mut CPU, condition: Option<Condition>) -> (cycles: u8)
    requires
        old(cpu).wf(),
    ensures
        final(cpu).wf(),
        (final(cpu)@, cycles) == old(cpu)@.jr(condition),
{
    proof {
        reveal(CpuView::jr);
    }
    let taken: bool = match condition {
        Some(condition) => test_condition(cpu, condition),
        None => true,
    };
    let n: u8 = get_n(cpu);
    if taken {
        cpu.regs.pc = offset_by(cpu.regs.pc, n);
        12
    } else {
        8
    }
}

/// *JP nn*, *JP cc,nn* - Jump to address nn
pub fn jp_x(cpu: &mut CPU, condition: Option<Condition>) -> (cycles: u8)
    requires
        old(cpu).wf(),
    ensures
        final(cpu).wf(),
        (final(cpu)@, cycles) == old(cpu)@.jp(condition),
{
    proof {
        reveal(CpuView::jp);
    }
    let taken: bool = match condition {
        Some(condition) => test_condition(cpu, condition),
        None => true,
    };
    let target: u16 = get_nn(cpu);
    if taken {
        cpu.regs.pc = target;
        16
    } else {
        12
    }
}

/// *CALL nn*, *CALL cc,nn* - Jump to address nn and store the address of
/// the next instruction on the stack
pub fn call_x(cpu: &mut CPU, condition: Option<Condition>) -> (cycles: u8)
    requires
        old(cpu).wf(),
    ensures
        final(cpu).wf(),
        (final(cpu)@, cycles) == old(cpu)@.call(condition),
{
    proof {
        reveal(CpuView::call);
    }
    let taken: bool = match condition {
        Some(condition) => test_condition(cpu, condition),
        None => true,
    };
    let target: u16 = get_nn(cpu);
    if taken {
        let next: u16 = cpu.regs.pc;
        cpu.push(next);
        cpu.regs.pc = target;
        24
    } else {
        12
    }
}

/// *RET*, *RET cc* - Pop from stack, and jump to this address
pub fn ret_x(cpu: &mut CPU, condition: Option<Condition>) -> (cycles: u8)
    requires
        old(cpu).wf(),
    ensures
        final(cpu).wf(),
        (final(cpu)@, cycles) == old(cpu)@.ret(condition),
{
    proof {
        reveal(CpuView::ret);
    }
    match condition {
        None => {
            cpu.regs.pc = cpu.pop();
            16
        },
        Some(condition) => {
            if test_condition(cpu, condition) {
                cpu.regs.pc = cpu.pop();
                20
            } else {
                8
            }
        },
    }
}

/// **0x18** - *JR n* - Jump to pc+n
pub fn jr_n(cpu: &mut CPU) -> (cycles: u8)
    requires
        old(cpu).wf(),
    ensures
        final(cpu).wf(),
        (final(cpu)@, cycles) == old(cpu)@.jr(None),
{
    proof {
        reveal(CpuView::jr);
    }
    jr_x(cpu, None)
}

/// **0x20** - *JR NZ,n* - Jump if Z flag is reset
pub fn jr_nz_n(cpu: &mut CPU) -> (cycles: u8)
    requires
        old(cpu).wf(),
    ensures
        final(cpu).wf(),
        (final(cpu)@, cycles) == old(cpu)@.jr(Some(Condition::NZ)),
{
    proof {
        reveal(CpuView::jr);
    }
    jr_x(cpu, Some(Condition::NZ))
}

/// **0x28** - *JR Z,n* - Jump if Z flag is set
pub fn jr_z_n(cpu: &mut CPU) -> (cycles: u8)
    requires
        old(cpu).wf(),
    ensures
        final(cpu).wf(),
        (final(cpu)@, cycles) == old(cpu)@.jr(Some(Condition::Z)),
{
    proof {
        reveal(CpuView::jr);
    }
    jr_x(cpu, Some(Condition::Z))
}

/// **0x30** - *JR NC,n* - Jump if C flag is reset
pub fn jr_nc_n(cpu: &mut CPU) -> (cycles: u8)
    requires
        old(cpu).wf(),
    ensures
        final(cpu).wf(),
        (final(cpu)@, cycles) == old(cpu)@.jr(Some(Condition::NC)),
{
    proof {
        reveal(CpuView::jr);
    }
    jr_x(cpu, Some(Condition::NC))
}

/// **0x38** - *JR C,n* - Jump if C flag is set
pub fn jr_c_n(cpu: &mut CPU) -> (cycles: u8)
    requires
        old(cpu).wf(),
    ensures
        final(cpu).wf(),
        (final(cpu)@, cycles) == old(cpu)@.jr(Some(Condition::C)),
{
    proof {
        reveal(CpuView::jr);
    }
    jr_x(cpu, Some(Condition::C))
}

/// **0xC3** - *JMP nn* - Jump to address nn (two byte)
pub fn jmp_nn(cpu: &mut CPU) -> (cycles: u8)
    requires
        old(cpu).wf(),
    ensures
        final(cpu).wf(),
        (final(cpu)@, cycles) == old(cpu)@.jp(None),
{
    proof {
        reveal(CpuView::jp);
    }
    jp_x(cpu, None)
}

/// **0xC2** - *JP NZ,nn* - Jump to address nn (two byte) if Z flag is reset
pub fn jp_nz_nn(cpu: &mut CPU) -> (cycles: u8)
    requires
        old(cpu).wf(),
    ensures
        final(cpu).wf(),
        (final(cpu)@, cycles) == old(cpu)@.jp(Some(Condition::NZ)),
{
    proof {
        reveal(CpuView::jp);
    }
    jp_x(cpu, Some(Condition::NZ))
}

/// **0xCA** - *JP Z,nn* - Jump to address nn (two byte) if Z flag is set
pub fn jp_z_nn(cpu: &mut CPU) -> (cycles: u8)
    requires
        old(cpu).wf(),
    ensures
        final(cpu).wf(),
        (final(cpu)@, cycles) == old(cpu)@.jp(Some(Condition::Z)),
{
    proof {
        reveal(CpuView::jp);
    }
    jp_x(cpu, Some(Condition::Z))
}

/// **0xD2** - *JP NC,nn* - Jump to address nn (two byte) if C flag is reset
pub fn jp_nc_nn(cpu: &mut CPU) -> (cycles: u8)
    requires
        old(cpu).wf(),
    ensures
        final(cpu).wf(),
        (final(cpu)@, cycles) == old(cpu)@.jp(Some(Condition::NC)),
{
    proof {
        reveal(CpuView::jp);
    }
    jp_x(cpu, Some(Condition::NC))
}

/// **0xDA** - *JP C,nn* - Jump to address nn (two byte) if C flag is set
pub fn jp_c_nn(cpu: &mut CPU) -> (cycles: u8)
    requires
        old(cpu).wf(),
    ensures
        final(cpu).wf(),
        (final(cpu)@, cycles) == old(cpu)@.jp(Some(Condition::C)),
{
    proof {
        reveal(CpuView::jp);
    }
    jp_x(cpu, Some(Condition::C))
}

/// **0xCD** - *CALL nn* - Jump to address nn and store current pc in stack
pub fn call_nn(cpu: &mut CPU) -> (cycles: u8)
    requires
        old(cpu).wf(),
    ensures
        final(cpu).wf(),
        (final(cpu)@, cycles) == old(cpu)@.call(None),
{
    proof {
        reveal(CpuView::call);
    }
    call_x(cpu, None)
}

/// **0xC4** - *CALL NZ,nn* - If Z is reset jump to address nn and store current pc in stack
pub fn call_nz_nn(cpu: &mut CPU) -> (cycles: u8)
    requires
        old(cpu).wf(),
    ensures
        final(cpu).wf(),
        (final(cpu)@, cycles) == old(cpu)@.call(Some(Condition::NZ)),
{
    proof {
        reveal(CpuView::call);
    }
    call_x(cpu, Some(Condition::NZ))
}

/// **0xCC** - *CALL Z,nn* - If Z is set jump to address nn and store current pc in stack
pub fn call_z_nn(cpu: &mut CPU) -> (cycles: u8)
    requires
        old(cpu).wf(),
    ensures
        final(cpu).wf(),
        (final(cpu)@, cycles) == old(cpu)@.call(Some(Condition::Z)),
{
    proof {
        reveal(CpuView::call);
    }
    call_x(cpu, Some(Condition::Z))
}

/// **0xD4** - *CALL NC,nn* - If C is reset jump to address nn and store current pc in stack
pub fn call_nc_nn(cpu: &mut CPU) -> (cycles: u8)
    requires
        old(cpu).wf(),
    ensures
        final(cpu).wf(),
        (final(cpu)@, cycles) == old(cpu)@.call(Some(Condition::NC)),
{
    proof {
        reveal(CpuView::call);
    }
    call_x(cpu, Some(Condition::NC))
}

/// **0xDC** - *CALL C,nn* - If C is set jump to address nn and store current pc in stack
pub fn call_c_nn(cpu: &mut CPU) -> (cycles: u8)
    requires
        old(cpu).wf(),
    ensures
        final(cpu).wf(),
        (final(cpu)@, cycles) == old(cpu)@.call(Some(Condition::C)),
{
    proof {
        reveal(CpuView::call);
    }
    call_x(cpu, Some(Condition::C))
}

/// **0xC9** - *RET* - Pop from stack, and jump to this address
pub fn ret(cpu: &mut CPU) -> (cycles: u8)
    requires
        old(cpu).wf(),
    ensures
        final(cpu).wf(),
        (final(cpu)@, cycles) == old(cpu)@.ret(None),
{
    proof {
        reveal(CpuView::ret);
    }
    ret_x(cpu, None)
}

/// **0xC0** - *RET nz* - Return if Z flag is reset
pub fn ret_nz(cpu: &mut CPU) -> (cycles: u8)
    requires
        old(cpu).wf(),
    ensures
        final(cpu).wf(),
        (final(cpu)@, cycles) == old(cpu)@.ret(Some(Condition::NZ)),
{
    proof {
        reveal(CpuView::ret);
    }
    ret_x(cpu, Some(Condition::NZ))
}

/// **0xC8** - *RET z* - Return if Z flag is set
pub fn ret_z(cpu: &mut CPU) -> (cycles: u8)
    requires
        old(cpu).wf(),
    ensures
        final(cpu).wf(),
        (final(cpu)@, cycles) == old(cpu)@.ret(Some(Condition::Z)),
{
    proof {
        reveal(CpuView::ret);
    }
    ret_x(cpu, Some(Condition::Z))
}

/// **0xD0** - *RET nc* - Return if C flag is reset
pub fn ret_nc(cpu: &mut CPU) -> (cycles: u8)
    requires
        old(cpu).wf(),
    ensures
        final(cpu).wf(),
        (final(cpu)@, cycles) == old(cpu)@.ret(Some(Condition::NC)),
{
    proof {
        reveal(CpuView::ret);
    }
    ret_x(cpu, Some(Condition::NC))
}

/// **0xD8** - *RET c* - Return if C flag is set
pub fn ret_c(cpu: &mut CPU) -> (cycles: u8)
    requires
        old(cpu).wf(),
    ensures
        final(cpu).wf(),
        (final(cpu)@, cycles) == old(cpu)@.ret(Some(Condition::C)),
{
    proof {
        reveal(CpuView::ret);
    }
    ret_x(cpu, Some(Condition::C))
}

/// **0xD9** - *RETI* - Return and enable interrupts
pub fn reti(cpu: &mut CPU) -> (cycles: u8)
    requires
        old(cpu).wf(),
    ensures
        final(cpu).wf(),
        (final(cpu)@, cycles) == old(cpu)@.reti(),
{
    proof {
        reveal(CpuView::reti);
    }
    cpu.regs.pc = cpu.pop();
    cpu.interrupts_countdown = 1;
    16
}

/// **0xE9** - *JMP hl* - Jump to hl.
pub fn jmp_hl(cpu: &mut CPU) -> (cycles: u8)
    requires
        old(cpu).wf(),
    ensures
        final(cpu).wf(),
        (final(cpu)@, cycles) == old(cpu)@.jp_hl(),
{
    proof {
        reveal(CpuView::jp_hl);
    }
    cpu.regs.pc = cpu.regs.get_hl();
    4
}

/// **0xC7 ~ 0xFF** - *RST n* - Push the program counter and jump to n.
pub fn rst(cpu: &mut CPU, step: u16) -> (cycles: u8)
    requires
        old(cpu).wf(),
    ensures
        final(cpu).wf(),
        (final(cpu)@, cycles) == old(cpu)@.rst(step),
{
    proof {
        reveal(CpuView::rst);
    }
    let here: u16 = cpu.regs.pc;
    cpu.push(here);
    cpu.regs.pc = step;
    16
}

/// A CALL that is followed by a RET, with the stack left alone in
/// between, leaves the stack pointer as it was and the program counter at
/// the instruction after the CALL, where the two bytes below the stack pointer
/// lie in memory that keeps what is written to it.
pub proof fn lemma_call_ret_restores(cpu: CpuView)
    requires
        cpu.wf(),
        cpu.mem.keeps(add16(cpu.regs.sp, -2)),
        cpu.mem.keeps(add16(cpu.regs.sp, -1)),
    ensures
        cpu.call(None).0.regs.pc == cpu.immediate16(),
        cpu.call(None).0.ret(None).0.regs.sp == cpu.regs.sp,
        cpu.call(None).0.ret(None).0.regs.pc == add16(cpu.regs.pc, 2),
        cpu.call(None).0.ret(None).0.wf(),
{
    reveal(CpuView::call);
    reveal(CpuView::ret);
    let sp = add16(cpu.regs.sp, -2);
    assert(MemView::next(sp) == add16(cpu.regs.sp, -1));
    lemma_ram_keeps_short(cpu.mem, sp, add16(cpu.regs.pc, 2));
}

} // verus!
