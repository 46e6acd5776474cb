//! Instructions that move 16-bit values, the stack instructions, and the
//! loads of A through an address.
use crate::cpu::cpu::add16;
use crate::cpu::cpu::signed;
use crate::cpu::cpu::CpuView;
use crate::cpu::cpu::CPU;
use crate::cpu::instrs::utils::get_n;
use crate::cpu::instrs::utils::get_nn;
use crate::cpu::instrs::utils::offset_by;
use crate::cpu::instrs::utils::read_pair;
use crate::cpu::instrs::utils::write_pair;
use crate::cpu::instrs::utils::Pair;
use crate::cpu::regs::lemma_pair_restores;
use crate::mem::MemView;
use vstd::prelude::*;

verus! {

/// The address of the I/O register or high RAM byte `offset`.
pub open spec fn high_page(offset: u8) -> u16 {
    (0xFF00 + offset) as u16
}

impl CpuView {
    /// LD rr,nn: the 16-bit value that follows the opcode is loaded into a
    /// 16-bit register.
    #[verifier::opaque]
    pub open spec fn ld_pair_immediate(self, pair: Pair) -> (CpuView, u8) {
        (self.advanced(2).with_pair(pair, self.immediate16()), 12)
    }

    /// LD (nn),SP: the stack pointer is stored at the address that follows
    /// the opcode, low byte first.
    #[verifier::opaque]
    pub open spec fn ld_pnn_sp(self) -> (CpuView, u8) {
        (
            self.advanced(2).with_mem(self.mem.write_short(self.immediate16(), self.regs.sp)),
            20,
        )
    }

    /// POP rr: the top of the stack is taken off into a 16-bit register.
    /// Of a value popped into AF, F keeps only the high four bits.
    #[verifier::opaque]
    pub open spec fn pop_pair(self, pair: Pair) -> (CpuView, u8) {
        (self.dropped().with_pair(pair, self.top()), 12)
    }

    /// PUSH rr: a 16-bit register is pushed onto the stack.
    #[verifier::opaque]
    pub open spec fn push_pair(self, pair: Pair) -> (CpuView, u8) {
        (self.pushed(self.pair(pair)), 16)
    }

    /// LDH (n),A: A is stored at 0xFF00 plus the byte that follows the
    /// opcode.
    #[verifier::opaque]
    pub open spec fn ldh_pn_a(self) -> (CpuView, u8) {
        (self.advanced(1).stored(high_page(self.immediate()), self.regs.a), 12)
    }

    /// LDH A,(n): the byte at 0xFF00 plus the byte that follows the opcode
    /// is loaded into A.
    #[verifier::opaque]
    pub open spec fn ldh_a_pn(self) -> (CpuView, u8) {
        (self.advanced(1).with_a(self.mem.read(high_page(self.immediate()))), 12)
    }

    /// LD (C),A: A is stored at 0xFF00 plus C.
    #[verifier::opaque]
    pub open spec fn ld_pc_a(self) -> (CpuView, u8) {
        (self.stored(high_page(self.regs.c), self.regs.a), 8)
    }

    /// LD A,(C): the byte at 0xFF00 plus C is loaded into A.
    #[verifier::opaque]
    pub open spec fn ld_a_pc(self) -> (CpuView, u8) {
        (self.with_a(self.mem.read(high_page(self.regs.c))), 8)
    }

    /// LD (nn),A: A is stored at the address that follows the opcode.
    #[verifier::opaque]
    pub open spec fn ld_pnn_a(self) -> (CpuView, u8) {
        (self.advanced(2).stored(self.immediate16(), self.regs.a), 16)
    }

    /// LD A,(nn): the byte at the address that follows the opcode is
    /// loaded into A.
    #[verifier::opaque]
    pub open spec fn ld_a_pnn(self) -> (CpuView, u8) {
        (self.advanced(2).with_a(self.mem.read(self.immediate16())), 16)
    }

    /// LD SP,HL
    #[verifier::opaque]
    pub open spec fn ld_sp_hl(self) -> (CpuView, u8) {
        (self.with_sp(self.regs.hl()), 8)
    }

    /// The state with the flags of an addition of the signed byte `offset`
    /// to the stack pointer: Z and N clear, H and C the carries out of bit
    /// 3 and bit 7 of the sum of the stack pointer's low byte and the byte
    /// taken as unsigned.
    pub open spec fn with_offset_flags(self, sp: u16, offset: u8) -> CpuView {
        self.with_flags(false, false, sp % 16 + offset % 16 > 0xF, sp % 256 + offset > 0xFF)
    }

    /// LD HL,SP+n: the stack pointer plus the signed byte that follows the
    /// opcode is loaded into HL.
    #[verifier::opaque]
    pub open spec fn ldhl_sp_n(self) -> (CpuView, u8) {
        (
            self.advanced(1).with_pair(
                Pair::HL,
                add16(self.regs.sp, signed(self.immediate())),
            ).with_offset_flags(self.regs.sp, self.immediate()),
            12,
        )
    }
}

/// *LD xx,nn* - Put nn in the 16-bit register xx
pub fn ld_xx_nn(cpu: &mut CPU, pair: Pair) -> (cycles: u8)
    requires
        old(cpu).wf(),
    ensures
        final(cpu).wf(),
        (final(cpu)@, cycles) == old(cpu)@.ld_pair_immediate(pair),
{
    proof {
        reveal(CpuView::ld_pair_immediate);
    }
    let value: u16 = get_nn(cpu);
    write_pair(cpu, pair, value);
    12
}

/// *POP xx* - Pop stack element into xx
pub fn pop_xx(cpu: &mut CPU, pair: Pair) -> (cycles: u8)
    requires
        old(cpu).wf(),
    ensures
        final(cpu).wf(),
        (final(cpu)@, cycles) == old(cpu)@.pop_pair(pair),
{
    proof {
        reveal(CpuView::pop_pair);
    }
    let value: u16 = cpu.pop();
    write_pair(cpu, pair, value);
    12
}

/// *PUSH xx* - Push xx onto the stack
pub fn push_xx(cpu: &mut CPU, pair: Pair) -> (cycles: u8)
    requires
        old(cpu).wf(),
    ensures
        final(cpu).wf(),
        (final(cpu)@, cycles) == old(cpu)@.push_pair(pair),
{
    proof {
        reveal(CpuView::push_pair);
    }
    let value: u16 = read_pair(cpu, pair);
    cpu.push(value);
    16
}

/// **0x01** - *LD bc,nn* - Put nn in bc
pub fn ld_bc_nnnn(cpu: &mut CPU) -> (cycles: u8)
    requires
        old(cpu).wf(),
    ensures
        final(cpu).wf(),
        (final(cpu)@, cycles) == old(cpu)@.ld_pair_immediate(Pair::BC),
{
    proof {
        reveal(CpuView::ld_pair_immediate);
    }
    ld_xx_nn(cpu, Pair::BC)
}

/// **0x11** - *LD de,nn* - Put nn in de
pub fn ld_de_nn(cpu: &mut CPU) -> (cycles: u8)
    requires
        old(cpu).wf(),
    ensures
        final(cpu).wf(),
        (final(cpu)@, cycles) == old(cpu)@.ld_pair_immediate(Pair::DE),
{
    proof {
        reveal(CpuView::ld_pair_immediate);
    }
    ld_xx_nn(cpu, Pair::DE)
}

/// **0x21** - *LD hl,nn* - Put nn in hl
pub fn ld_hl_nnnn(cpu: &mut CPU) -> (cycles: u8)
    requires
        old(cpu).wf(),
    ensures
        final(cpu).wf(),
        (final(cpu)@, cycles) == old(cpu)@.ld_pair_immediate(Pair::HL),
{
    proof {
        reveal(CpuView::ld_pair_immediate);
    }
    ld_xx_nn(cpu, Pair::HL)
}

/// **0x31** - *LD sp,nn* - Put nn in sp
pub fn ld_sp_nn(cpu: &mut CPU) -> (cycles: u8)
    requires
        old(cpu).wf(),
    ensures
        final(cpu).wf(),
        (final(cpu)@, cycles) == old(cpu)@.ld_pair_immediate(Pair::SP),
{
    proof {
        reveal(CpuView::ld_pair_immediate);
    }
    ld_xx_nn(cpu, Pair::SP)
}

/// **0x08** - *LD (nn),sp* - Put sp at nn
pub fn ld_pnn_sp(cpu: &mut CPU) -> (cycles: u8)
    requires
        old(cpu).wf(),
    ensures
        final(cpu).wf(),
        (final(cpu)@, cycles) == old(cpu)@.ld_pnn_sp(),
{
    proof {
        reveal(CpuView::ld_pnn_sp);
    }
    let pointer: u16 = get_nn(cpu);
    cpu.mem.write_short(pointer, cpu.regs.sp);
    20
}

/// **0xC1** - *POP bc* - Pop stack element into bc
pub fn pop_bc(cpu: &mut CPU) -> (cycles: u8)
    requires
        old(cpu).wf(),
    ensures
        final(cpu).wf(),
        (final(cpu)@, cycles) == old(cpu)@.pop_pair(Pair::BC),
{
    proof {
        reveal(CpuView::pop_pair);
    }
    pop_xx(cpu, Pair::BC)
}

/// **0xD1** - *POP de* - Pop stack element into de
pub fn pop_de(cpu: &mut CPU) -> (cycles: u8)
    requires
        old(cpu).wf(),
    ensures
        final(cpu).wf(),
        (final(cpu)@, cycles) == old(cpu)@.pop_pair(Pair::DE),
{
    proof {
        reveal(CpuView::pop_pair);
    }
    pop_xx(cpu, Pair::DE)
}

/// **0xE1** - *POP hl* - Pop stack element into hl
pub fn pop_hl(cpu: &mut CPU) -> (cycles: u8)
    requires
        old(cpu).wf(),
    ensures
        final(cpu).wf(),
        (final(cpu)@, cycles) == old(cpu)@.pop_pair(Pair::HL),
{
    proof {
        reveal(CpuView::pop_pair);
    }
    pop_xx(cpu, Pair::HL)
}

/// **0xF1** - *POP af* - Pop stack element into af
pub fn pop_af(cpu: &mut CPU) -> (cycles: u8)
    requires
        old(cpu).wf(),
    ensures
        final(cpu).wf(),
        (final(cpu)@, cycles) == old(cpu)@.pop_pair(Pair::AF),
{
    proof {
        reveal(CpuView::pop_pair);
    }
    pop_xx(cpu, Pair::AF)
}

/// **0xC5** - *PUSH bc* - Push bc onto the stack
pub fn push_bc(cpu: &mut CPU) -> (cycles: u8)
    requires
        old(cpu).wf(),
    ensures
        final(cpu).wf(),
        (final(cpu)@, cycles) == old(cpu)@.push_pair(Pair::BC),
{
    proof {
        reveal(CpuView::push_pair);
    }
    push_xx(cpu, Pair::BC)
}

/// **0xD5** - *PUSH de* - Push de onto the stack
pub fn push_de(cpu: &mut CPU) -> (cycles: u8)
    requires
        old(cpu).wf(),
    ensures
        final(cpu).wf(),
        (final(cpu)@, cycles) == old(cpu)@.push_pair(Pair::DE),
{
    proof {
        reveal(CpuView::push_pair);
    }
    push_xx(cpu, Pair::DE)
}

/// **0xE5** - *PUSH hl* - Push hl onto the stack
pub fn push_hl(cpu: &mut CPU) -> (cycles: u8)
    requires
        old(cpu).wf(),
    ensures
        final(cpu).wf(),
        (final(cpu)@, cycles) == old(cpu)@.push_pair(Pair::HL),
{
    proof {
        reveal(CpuView::push_pair);
    }
    push_xx(cpu, Pair::HL)
}

/// **0xF5** - *PUSH af* - Push af onto the stack
pub fn push_af(cpu: &mut CPU) -> (cycles: u8)
    requires
        old(cpu).wf(),
    ensures
        final(cpu).wf(),
        (final(cpu)@, cycles) == old(cpu)@.push_pair(Pair::AF),
{
    proof {
        reveal(CpuView::push_pair);
    }
    push_xx(cpu, Pair::AF)
}

/// **0xE0** - *LDH (n),a* - Put a in memory address \*($FF00+n)
pub fn ldh_pn_a(cpu: &mut CPU) -> (cycles: u8)
    requires
        old(cpu).wf(),
    ensures
        final(cpu).wf(),
        (final(cpu)@, cycles) == old(cpu)@.ldh_pn_a(),
{
    proof {
        reveal(CpuView::ldh_pn_a);
    }
    let offset: u8 = get_n(cpu);
    cpu.mem.write(0xFF00 + offset as u16, cpu.regs.a);
    12
}

/// **0xE2** - *LD (c),a* - Put a in memory address \*($FF00+c)
pub fn ld_pc(cpu: &mut CPU) -> (cycles: u8)
    requires
        old(cpu).wf(),
    ensures
        final(cpu).wf(),
        (final(cpu)@, cycles) == old(cpu)@.ld_pc_a(),
{
    proof {
        reveal(CpuView::ld_pc_a);
    }
    cpu.mem.write(0xFF00 + cpu.regs.c as u16, cpu.regs.a);
    8
}

/// **0xEA** - *LD (nn),a* - Put a in \*nn
pub fn ld_pnn_a(cpu: &mut CPU) -> (cycles: u8)
    requires
        old(cpu).wf(),
    ensures
        final(cpu).wf(),
        (final(cpu)@, cycles) == old(cpu)@.ld_pnn_a(),
{
    proof {
        reveal(CpuView::ld_pnn_a);
    }
    let pointer: u16 = get_nn(cpu);
    cpu.mem.write(pointer, cpu.regs.a);
    16
}

/// **0xF0** - *LDH a,(n)* - Put memory address \*($FF00+n) in a
pub fn ldh_a_pn(cpu: &mut CPU) -> (cycles: u8)
    requires
        old(cpu).wf(),
    ensures
        final(cpu).wf(),
        (final(cpu)@, cycles) == old(cpu)@.ldh_a_pn(),
{
    proof {
        reveal(CpuView::ldh_a_pn);
    }
    let offset: u8 = get_n(cpu);
    cpu.regs.a = cpu.mem.read(0xFF00 + offset as u16);
    12
}

/// **0xF2** - *LD a,(c)* - Put \*($FF00+c) into a
pub fn ld_a_ptrc(cpu: &mut CPU) -> (cycles: u8)
    requires
        old(cpu).wf(),
    ensures
        final(cpu).wf(),
        (final(cpu)@, cycles) == old(cpu)@.ld_a_pc(),
{
    proof {
        reveal(CpuView::ld_a_pc);
    }
    cpu.regs.a = cpu.mem.read(0xFF00 + cpu.regs.c as u16);
    8
}

/// **0xF8** - *LDHL sp,n* - Put sp + n effective address into hl
pub fn ldhl_sp_n(cpu: &mut CPU) -> (cycles: u8)
    requires
        old(cpu).wf(),
    ensures
        final(cpu).wf(),
        (final(cpu)@, cycles) == old(cpu)@.ldhl_sp_n(),
{
    proof {
        reveal(CpuView::ldhl_sp_n);
    }
    let prev_value: u16 = cpu.regs.sp;
    let offset: u8 = get_n(cpu);
    cpu.regs.set_hl(offset_by(prev_value, offset));
    cpu.regs.set_flags(
        false,
        false,
        (prev_value % 16) + (offset as u16 % 16) > 0xF,
        (prev_value % 256) + offset as u16 > 0xFF,
    );
    12
}

/// **0xF9** - *LD sp,hl* - Put hl in sp
pub fn ld_sp_hl(cpu: &mut CPU) -> (cycles: u8)
    requires
        old(cpu).wf(),
    ensures
        final(cpu).wf(),
        (final(cpu)@, cycles) == old(cpu)@.ld_sp_hl(),
{
    proof {
        reveal(CpuView::ld_sp_hl);
    }
    cpu.regs.sp = cpu.regs.get_hl();
    8
}

/// **0xFA** - *LD a,(nn)* - Read \*nn into a
pub fn ld_a_pnn(cpu: &mut CPU) -> (cycles: u8)
    requires
        old(cpu).wf(),
    ensures
        final(cpu).wf(),
        (final(cpu)@, cycles) == old(cpu)@.ld_a_pnn(),
{
    proof {
        reveal(CpuView::ld_a_pnn);
    }
    let pointer: u16 = get_nn(cpu);
    cpu.regs.a = cpu.mem.read(pointer);
    16
}

impl MemView {
    /// Whether the byte at `ptr` is one that the bus stores as it is
    /// written and reads as it is stored: a byte of the work RAM or of its
    /// echo, of the high RAM, the interrupt enable register, a byte of
    /// cartridge RAM that the cartridge has, or a byte of video memory or of
    /// the sprite table while that is open.
    pub open spec fn keeps(self, ptr: u16) -> bool {
        ||| 0xC000 <= ptr <= 0xFDFF
        ||| 0xFF80 <= ptr
        ||| 0xA000 <= ptr <= 0xBFFF && ptr - 0xA000 < self.rom.cart_ram.len()
        ||| 0x8000 <= ptr <= 0x9FFF && self.vram_open()
        ||| 0xFE00 <= ptr <= 0xFE9F && self.oam_open()
    }

    /// Whether `ptr` and `other` are two addresses of one byte: an address
    /// of the work RAM and its echo.
    pub open spec fn same_byte(ptr: u16, other: u16) -> bool {
        ptr == other || (0xC000 <= ptr <= 0xFDFF && 0xC000 <= other <= 0xFDFF && (ptr - other)
            % 0x2000 == 0)
    }
}

/// A byte that is written to memory which keeps it is read back from
/// there, and the write changes what is read at no other address, but for
/// the echo of the byte.
pub proof fn lemma_ram_keeps(mem: MemView, ptr: u16, val: u8, other: u16)
    requires
        mem.wf(),
        mem.keeps(ptr),
    ensures
        mem.write(ptr, val).wf(),
        mem.write(ptr, val).read(ptr) == val,
        mem.write(ptr, val).keeps(other) == mem.keeps(other),
        !MemView::same_byte(ptr, other) && (mem.keeps(other) || other < 0x8000) ==> mem.write(
            ptr,
            val,
        ).read(other) == mem.read(other),
{
}

/// A 16-bit value that is written to memory which keeps it is read back
/// from there.
pub proof fn lemma_ram_keeps_short(mem: MemView, ptr: u16, val: u16)
    requires
        mem.wf(),
        mem.keeps(ptr),
        mem.keeps(MemView::next(ptr)),
    ensures
        mem.write_short(ptr, val).wf(),
        mem.write_short(ptr, val).read_short(ptr) == val,
{
    let first = mem.write(ptr, crate::cpu::regs::low_byte(val));
    lemma_ram_keeps(mem, ptr, crate::cpu::regs::low_byte(val), MemView::next(ptr));
    lemma_ram_keeps(first, MemView::next(ptr), crate::cpu::regs::high_byte(val), ptr);
}

/// PUSH followed by POP of the same register restores the register and
/// the stack pointer, where the two bytes below the stack pointer lie in
/// memory that keeps what is written to it. Of AF, the low four bits of F
/// are zero before and after.
pub proof fn lemma_push_pop_restores(cpu: CpuView, pair: Pair)
    requires
        cpu.wf(),
        cpu.mem.keeps(add16(cpu.regs.sp, -2)),
        cpu.mem.keeps(add16(cpu.regs.sp, -1)),
    ensures
        cpu.push_pair(pair).0.pop_pair(pair).0.regs == cpu.regs,
        cpu.push_pair(pair).0.pop_pair(pair).0.pair(pair) == cpu.pair(pair),
        cpu.push_pair(pair).0.pop_pair(pair).0.wf(),
{
    reveal(CpuView::push_pair);
    reveal(CpuView::pop_pair);
    let val = cpu.pair(pair);
    let sp = add16(cpu.regs.sp, -2);
    let pushed = cpu.pushed(val);
    assert(MemView::next(sp) == add16(cpu.regs.sp, -1));
    lemma_ram_keeps_short(cpu.mem, sp, val);
    assert(pushed.top() == val);
    assert(pushed.dropped().regs == cpu.regs);
    lemma_pair_restores(cpu.regs);
    assert(pushed.dropped().with_pair(pair, val).regs == cpu.regs);
}

} // verus!
