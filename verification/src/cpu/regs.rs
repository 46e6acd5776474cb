//! The register file: eight 8-bit registers, which pair up into four 16-bit
//! ones, the stack pointer and the program counter.
use vstd::prelude::*;

verus! {

/// The 16-bit value whose high byte is `hi` and whose low byte is `lo`.
pub open spec fn pair(hi: u8, lo: u8) -> u16 {
    (hi as int * 256 + lo as int) as u16
}

pub open spec fn high_byte(val: u16) -> u8 {
    (val / 256) as u8
}

pub open spec fn low_byte(val: u16) -> u8 {
    (val % 256) as u8
}

/// The flag register that holds exactly the given four flags. Z is bit 7,
/// N bit 6, H bit 5 and C bit 4; the low four bits are zero.
pub open spec fn flags_byte(z: bool, n: bool, h: bool, c: bool) -> u8 {
    ((if z { 0x80int } else { 0 }) + (if n { 0x40int } else { 0 }) + (if h { 0x20int } else { 0 }) + (if c { 0x10int } else { 0 })) as u8
}

pub proof fn lemma_pair_bits(hi: u8, lo: u8)
    by (bit_vector)
    ensures
        ((hi as u16) << 8) | (lo as u16) == hi as u16 * 256 + lo as u16,
        ((hi as u16) << 8) | (lo as u16 & 0xF0) == hi as u16 * 256 + (lo as u16 - lo as u16 % 16),
{
}

pub proof fn lemma_split_bits(val: u16)
    by (bit_vector)
    ensures
        ((val >> 8) & 0xFF) as u8 == val / 256,
        (val & 0xFF) as u8 == val % 256,
        (val & 0xF0) as u8 == val % 256 - val % 16,
        val & 0xFFF0 == val - val % 16,
{
}

pub proof fn lemma_flag_bits(f: u8)
    by (bit_vector)
    ensures
        ((f >> 7) & 0x1 == 1) == (f / 128 % 2 == 1),
        ((f >> 6) & 0x1 == 1) == (f / 64 % 2 == 1),
        ((f >> 5) & 0x1 == 1) == (f / 32 % 2 == 1),
        ((f >> 4) & 0x1 == 1) == (f / 16 % 2 == 1),
        f | (1u8 << 7u8) == f + (if f / 128 % 2 == 1 { 0u8 } else { 128u8 }),
        f | (1u8 << 6u8) == f + (if f / 64 % 2 == 1 { 0u8 } else { 64u8 }),
        f | (1u8 << 5u8) == f + (if f / 32 % 2 == 1 { 0u8 } else { 32u8 }),
        f | (1u8 << 4u8) == f + (if f / 16 % 2 == 1 { 0u8 } else { 16u8 }),
        f & !(1u8 << 7u8) == f - (if f / 128 % 2 == 1 { 128u8 } else { 0u8 }),
        f & !(1u8 << 6u8) == f - (if f / 64 % 2 == 1 { 64u8 } else { 0u8 }),
        f & !(1u8 << 5u8) == f - (if f / 32 % 2 == 1 { 32u8 } else { 0u8 }),
        f & !(1u8 << 4u8) == f - (if f / 16 % 2 == 1 { 16u8 } else { 0u8 }),
        f == (if f / 128 % 2 == 1 { 128u8 } else { 0u8 }) + (if f / 64 % 2 == 1 { 64u8 } else { 0u8 })
            + (if f / 32 % 2 == 1 { 32u8 } else { 0u8 }) + (if f / 16 % 2 == 1 { 16u8 } else { 0u8 })
            + f % 16,
{
}

/// The registers of the processor.
#[derive(PartialEq, Eq, Structural, Debug, Clone, Copy)]
pub struct Registers {
    pub a: u8,
    pub b: u8,
    pub c: u8,
    pub d: u8,
    pub e: u8,
    pub f: u8,
    pub h: u8,
    pub l: u8,
    pub sp: u16,
    pub pc: u16,
}

impl Registers {
    /// The low four bits of F are zero.
    pub open spec fn wf(self) -> bool {
        self.f % 16 == 0
    }

    pub open spec fn af(self) -> u16 {
        pair(self.a, (self.f - self.f % 16) as u8)
    }

    pub open spec fn bc(self) -> u16 {
        pair(self.b, self.c)
    }

    pub open spec fn de(self) -> u16 {
        pair(self.d, self.e)
    }

    pub open spec fn hl(self) -> u16 {
        pair(self.h, self.l)
    }

    pub open spec fn with_af(self, val: u16) -> Registers {
        Registers { a: high_byte(val), f: (low_byte(val) - low_byte(val) % 16) as u8, ..self }
    }

    pub open spec fn with_bc(self, val: u16) -> Registers {
        Registers { b: high_byte(val), c: low_byte(val), ..self }
    }

    pub open spec fn with_de(self, val: u16) -> Registers {
        Registers { d: high_byte(val), e: low_byte(val), ..self }
    }

    pub open spec fn with_hl(self, val: u16) -> Registers {
        Registers { h: high_byte(val), l: low_byte(val), ..self }
    }

    pub open spec fn flag_z(self) -> bool {
        self.f / 128 % 2 == 1
    }

    pub open spec fn flag_n(self) -> bool {
        self.f / 64 % 2 == 1
    }

    pub open spec fn flag_h(self) -> bool {
        self.f / 32 % 2 == 1
    }

    pub open spec fn flag_c(self) -> bool {
        self.f / 16 % 2 == 1
    }

    /// The registers with F replaced by the byte that holds the four flags.
    pub open spec fn with_flags(self, z: bool, n: bool, h: bool, c: bool) -> Registers {
        Registers { f: flags_byte(z, n, h, c), ..self }
    }

    pub open spec fn with_flag_z(self, val: bool) -> Registers {
        Registers { f: (flags_byte(val, self.flag_n(), self.flag_h(), self.flag_c()) + self.f % 16) as u8, ..self }
    }

    pub open spec fn with_flag_n(self, val: bool) -> Registers {
        Registers { f: (flags_byte(self.flag_z(), val, self.flag_h(), self.flag_c()) + self.f % 16) as u8, ..self }
    }

    pub open spec fn with_flag_h(self, val: bool) -> Registers {
        Registers { f: (flags_byte(self.flag_z(), self.flag_n(), val, self.flag_c()) + self.f % 16) as u8, ..self }
    }

    pub open spec fn with_flag_c(self, val: bool) -> Registers {
        Registers { f: (flags_byte(self.flag_z(), self.flag_n(), self.flag_h(), val) + self.f % 16) as u8, ..self }
    }

    pub fn get_af(&self) -> (val: u16)
        ensures
            val == self.af(),
    {
        proof {
            lemma_pair_bits(self.a, self.f);
        }
        ((self.a as u16) << 8) | (self.f as u16 & 0xF0)
    }

    pub fn get_bc(&self) -> (val: u16)
        ensures
            val == self.bc(),
    {
        proof {
            lemma_pair_bits(self.b, self.c);
        }
        ((self.b as u16) << 8) | (self.c as u16)
    }

    pub fn get_de(&self) -> (val: u16)
        ensures
            val == self.de(),
    {
        proof {
            lemma_pair_bits(self.d, self.e);
        }
        ((self.d as u16) << 8) | (self.e as u16)
    }

    pub fn get_hl(&self) -> (val: u16)
        ensures
            val == self.hl(),
    {
        proof {
            lemma_pair_bits(self.h, self.l);
        }
        ((self.h as u16) << 8) | (self.l as u16)
    }

    pub fn set_af(&mut self, val: u16)
        ensures
            *final(self) == old(self).with_af(val),
            final(self).af() == val - val % 16,
            final(self).wf(),
    {
        proof {
            lemma_split_bits(val);
        }
        self.a = ((val >> 8) & 0xFF) as u8;
        self.f = ((val) & 0xF0) as u8;
    }

    pub fn set_bc(&mut self, val: u16)
        ensures
            *final(self) == old(self).with_bc(val),
            final(self).bc() == val,
    {
        proof {
            lemma_split_bits(val);
        }
        self.b = ((val >> 8) & 0xFF) as u8;
        self.c = ((val) & 0xFF) as u8;
    }

    pub fn set_de(&mut self, val: u16)
        ensures
            *final(self) == old(self).with_de(val),
            final(self).de() == val,
    {
        proof {
            lemma_split_bits(val);
        }
        self.d = ((val >> 8) & 0xFF) as u8;
        self.e = ((val) & 0xFF) as u8;
    }

    pub fn set_hl(&mut self, val: u16)
        ensures
            *final(self) == old(self).with_hl(val),
            final(self).hl() == val,
    {
        proof {
            lemma_split_bits(val);
        }
        self.h = ((val >> 8) & 0xFF) as u8;
        self.l = ((val) & 0xFF) as u8;
    }

    pub fn get_flag_z(&self) -> (set: bool)
        ensures
            set == self.flag_z(),
    {
        proof {
            lemma_flag_bits(self.f);
        }
        ((self.f >> 7) & 0x1) == 1
    }

    pub fn get_flag_n(&self) -> (set: bool)
        ensures
            set == self.flag_n(),
    {
        proof {
            lemma_flag_bits(self.f);
        }
        ((self.f >> 6) & 0x1) == 1
    }

    pub fn get_flag_h(&self) -> (set: bool)
        ensures
            set == self.flag_h(),
    {
        proof {
            lemma_flag_bits(self.f);
        }
        ((self.f >> 5) & 0x1) == 1
    }

    pub fn get_flag_c(&self) -> (set: bool)
        ensures
            set == self.flag_c(),
    {
        proof {
            lemma_flag_bits(self.f);
        }
        ((self.f >> 4) & 0x1) == 1
    }

    pub fn set_flag_z(&mut self, val: bool)
        ensures
            *final(self) == old(self).with_flag_z(val),
            final(self).flag_z() == val,
            final(self).flag_n() == old(self).flag_n(),
            final(self).flag_h() == old(self).flag_h(),
            final(self).flag_c() == old(self).flag_c(),
            final(self).f % 16 == old(self).f % 16,
    {
        proof {
            lemma_flag_bits(self.f);
            lemma_flags_byte(self.flag_z(), self.flag_n(), self.flag_h(), self.flag_c());
        }
        if val {
            self.f |= 1 << 7;
        } else {
            self.f &= !(1 << 7);
        }
    }

    pub fn set_flag_n(&mut self, val: bool)
        ensures
            *final(self) == old(self).with_flag_n(val),
            final(self).flag_z() == old(self).flag_z(),
            final(self).flag_n() == val,
            final(self).flag_h() == old(self).flag_h(),
            final(self).flag_c() == old(self).flag_c(),
            final(self).f % 16 == old(self).f % 16,
    {
        proof {
            lemma_flag_bits(self.f);
            lemma_flags_byte(self.flag_z(), self.flag_n(), self.flag_h(), self.flag_c());
        }
        if val {
            self.f |= 1 << 6;
        } else {
            self.f &= !(1 << 6);
        }
    }

    pub fn set_flag_h(&mut self, val: bool)
        ensures
            *final(self) == old(self).with_flag_h(val),
            final(self).flag_z() == old(self).flag_z(),
            final(self).flag_n() == old(self).flag_n(),
            final(self).flag_h() == val,
            final(self).flag_c() == old(self).flag_c(),
            final(self).f % 16 == old(self).f % 16,
    {
        proof {
            lemma_flag_bits(self.f);
            lemma_flags_byte(self.flag_z(), self.flag_n(), self.flag_h(), self.flag_c());
        }
        if val {
            self.f |= 1 << 5;
        } else {
            self.f &= !(1 << 5);
        }
    }

    pub fn set_flag_c(&mut self, val: bool)
        ensures
            *final(self) == old(self).with_flag_c(val),
            final(self).flag_z() == old(self).flag_z(),
            final(self).flag_n() == old(self).flag_n(),
            final(self).flag_h() == old(self).flag_h(),
            final(self).flag_c() == val,
            final(self).f % 16 == old(self).f % 16,
    {
        proof {
            lemma_flag_bits(self.f);
            lemma_flags_byte(self.flag_z(), self.flag_n(), self.flag_h(), self.flag_c());
        }
        if val {
            self.f |= 1 << 4;
        } else {
            self.f &= !(1 << 4);
        }
    }

    /// Whether the low four bits of F are zero.
    pub fn is_valid(&self) -> (valid: bool)
        ensures
            valid == self.wf(),
    {
        self.f % 16 == 0
    }

    /// Replaces F by the byte that holds exactly the four flags.
    pub fn set_flags(&mut self, z: bool, n: bool, h: bool, c: bool)
        ensures
            *final(self) == old(self).with_flags(z, n, h, c),
            final(self).wf(),
    {
        let mut f: u8 = 0;
        if z {
            f = f + 0x80;
        }
        if n {
            f = f + 0x40;
        }
        if h {
            f = f + 0x20;
        }
        if c {
            f = f + 0x10;
        }
        self.f = f;
    }
}

/// A paired register that is set and then read gives back the value that
/// was set; for AF the low four bits, which F cannot hold, read as zero.
pub proof fn lemma_pair_round_trip(regs: Registers, val: u16)
    ensures
        regs.with_bc(val).bc() == val,
        regs.with_de(val).de() == val,
        regs.with_hl(val).hl() == val,
        regs.with_af(val).af() == val & 0xFFF0,
        regs.with_af(val).wf(),
{
    lemma_split_bits(val);
}

/// The byte built from four flags holds exactly those flags, and no others.
pub proof fn lemma_flags_byte(z: bool, n: bool, h: bool, c: bool)
    ensures
        flags_byte(z, n, h, c) / 128 % 2 == 1 <==> z,
        flags_byte(z, n, h, c) / 64 % 2 == 1 <==> n,
        flags_byte(z, n, h, c) / 32 % 2 == 1 <==> h,
        flags_byte(z, n, h, c) / 16 % 2 == 1 <==> c,
        flags_byte(z, n, h, c) % 16 == 0,
{
    let f = flags_byte(z, n, h, c);
    assert(f == (if z { 128u8 } else { 0u8 }) + (if n { 64u8 } else { 0u8 }) + (if h { 32u8 } else { 0u8 }) + (if c { 16u8 } else { 0u8 }));
    assert((f / 128 % 2 == 1 <==> z) && (f / 64 % 2 == 1 <==> n) && (f / 32 % 2 == 1 <==> h) && (f / 16 % 2 == 1 <==> c) && f % 16 == 0) by (bit_vector)
        requires
            f == (if z { 128u8 } else { 0u8 }) + (if n { 64u8 } else { 0u8 }) + (if h { 32u8 } else { 0u8 }) + (if c { 16u8 } else { 0u8 }),
    ;
}

/// Setting the four flags one after the other gives the register file whose
/// F holds exactly those flags.
pub proof fn lemma_flags_one_by_one(regs: Registers, z: bool, n: bool, h: bool, c: bool)
    requires
        regs.wf(),
    ensures
        regs.with_flag_z(z).with_flag_n(n).with_flag_h(h).with_flag_c(c) == regs.with_flags(
            z,
            n,
            h,
            c,
        ),
{
    lemma_flags_byte(z, regs.flag_n(), regs.flag_h(), regs.flag_c());
    lemma_flags_byte(z, n, regs.flag_h(), regs.flag_c());
    lemma_flags_byte(z, n, h, regs.flag_c());
}

/// A paired register that is set to the value that it holds stays as it is.
pub proof fn lemma_pair_restores(regs: Registers)
    requires
        regs.wf(),
    ensures
        regs.with_bc(regs.bc()) == regs,
        regs.with_de(regs.de()) == regs,
        regs.with_hl(regs.hl()) == regs,
        regs.with_af(regs.af()) == regs,
{
}

} // verus!
