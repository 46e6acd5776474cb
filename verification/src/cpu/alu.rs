//! The arithmetic of the processor on single bytes, with the flags that
//! each operation gives.
use crate::cpu::regs::flags_byte;
use crate::cpu::regs::lemma_flags_byte;
use vstd::prelude::*;

verus! {

/// A result byte and the four flags that come with it.
#[derive(PartialEq, Eq, Structural, Debug, Clone, Copy)]
pub struct AluResult {
    pub value: u8,
    pub z: bool,
    pub n: bool,
    pub h: bool,
    pub c: bool,
}

impl AluResult {
    /// The flag register that holds the result's flags.
    pub open spec fn flags(self) -> u8 {
        flags_byte(self.z, self.n, self.h, self.c)
    }
}

/// The operations of the accumulator with a second byte.
#[derive(PartialEq, Eq, Structural, Debug, Clone, Copy)]
pub enum AluOp {
    Add,
    Adc,
    Sub,
    Sbc,
    And,
    Xor,
    Or,
    Cp,
}

/// The rotations and shifts of one byte.
#[derive(PartialEq, Eq, Structural, Debug, Clone, Copy)]
pub enum ShiftOp {
    Rlc,
    Rrc,
    Rl,
    Rr,
    Sla,
    Sra,
    Swap,
    Srl,
}

pub open spec fn carry_of(carry: bool) -> int {
    if carry {
        1
    } else {
        0
    }
}

/// `a + b + carry`: Z is set for a result of zero, H for a carry out of
/// bit 3, C for a carry out of bit 7.
pub open spec fn add8(a: u8, b: u8, carry: bool) -> AluResult {
    AluResult {
        value: ((a + b + carry_of(carry)) % 256) as u8,
        z: (a + b + carry_of(carry)) % 256 == 0,
        n: false,
        h: a % 16 + b % 16 + carry_of(carry) > 0xF,
        c: a + b + carry_of(carry) > 0xFF,
    }
}

/// `a - b - carry`: Z is set for a result of zero, H for a borrow from
/// bit 4, C for a borrow from bit 8.
pub open spec fn sub8(a: u8, b: u8, carry: bool) -> AluResult {
    AluResult {
        value: ((a - b - carry_of(carry)) % 256) as u8,
        z: (a - b - carry_of(carry)) % 256 == 0,
        n: true,
        h: a % 16 - b % 16 - carry_of(carry) < 0,
        c: a - b - carry_of(carry) < 0,
    }
}

/// What an operation of the accumulator gives for the accumulator `a`, the
/// second byte `b` and the carry flag `carry`. The value is what the
/// accumulator becomes; a comparison leaves it as it is.
pub open spec fn alu8(op: AluOp, a: u8, b: u8, carry: bool) -> AluResult {
    match op {
        AluOp::Add => add8(a, b, false),
        AluOp::Adc => add8(a, b, carry),
        AluOp::Sub => sub8(a, b, false),
        AluOp::Sbc => sub8(a, b, carry),
        AluOp::And => AluResult { value: a & b, z: a & b == 0, n: false, h: true, c: false },
        AluOp::Xor => AluResult { value: a ^ b, z: a ^ b == 0, n: false, h: false, c: false },
        AluOp::Or => AluResult { value: a | b, z: a | b == 0, n: false, h: false, c: false },
        AluOp::Cp => AluResult { value: a, ..sub8(a, b, false) },
    }
}

/// What a rotation or shift gives for the byte `v` and the carry flag
/// `carry`. C takes the bit that leaves the byte; a rotation through carry
/// takes the carry flag in at the other end.
#[verifier::opaque]
pub open spec fn shift8(op: ShiftOp, v: u8, carry: bool) -> AluResult {
    let value: int = match op {
        ShiftOp::Rlc => (v % 128) * 2 + v / 128,
        ShiftOp::Rrc => v / 2 + (v % 2) * 128,
        ShiftOp::Rl => (v % 128) * 2 + carry_of(carry),
        ShiftOp::Rr => v / 2 + carry_of(carry) * 128,
        ShiftOp::Sla => (v % 128) * 2,
        ShiftOp::Sra => v / 2 + (v / 128) * 128,
        ShiftOp::Swap => (v % 16) * 16 + v / 16,
        ShiftOp::Srl => (v / 2) as int,
    };
    AluResult {
        value: value as u8,
        z: value == 0,
        n: false,
        h: false,
        c: match op {
            ShiftOp::Rlc | ShiftOp::Rl | ShiftOp::Sla => v >= 128,
            ShiftOp::Rrc | ShiftOp::Rr | ShiftOp::Sra | ShiftOp::Srl => v % 2 == 1,
            ShiftOp::Swap => false,
        },
    }
}

/// The decimal adjustment of the accumulator `a` after an addition (N
/// clear) or a subtraction (N set) of two packed decimal numbers.
pub open spec fn daa8(a: u8, n: bool, h: bool, c: bool) -> AluResult {
    if !n {
        let high: int = if c || a > 0x99 {
            0x60
        } else {
            0
        };
        let low: int = if h || (a + high) % 16 > 0x9 {
            0x06
        } else {
            0
        };
        AluResult {
            value: ((a + high + low) % 256) as u8,
            z: (a + high + low) % 256 == 0,
            n,
            h: false,
            c: c || a > 0x99,
        }
    } else {
        let high: int = if c {
            0x60
        } else {
            0
        };
        let low: int = if h {
            0x06
        } else {
            0
        };
        AluResult {
            value: ((a - high - low) % 256) as u8,
            z: (a - high - low) % 256 == 0,
            n,
            h: false,
            c,
        }
    }
}

/// Whether both digits of a byte are decimal digits.
pub open spec fn is_bcd(v: u8) -> bool {
    v / 16 <= 9 && v % 16 <= 9
}

/// The number from 0 to 99 that a packed decimal byte stands for.
pub open spec fn bcd_value(v: u8) -> int {
    (v / 16) * 10 + v % 16
}

pub fn alu_add(a: u8, b: u8, carry: bool) -> (result: AluResult)
    ensures
        result == add8(a, b, carry),
{
    let carry_in: u8 = if carry {
        1
    } else {
        0
    };
    let new_value: u8 = a.wrapping_add(b).wrapping_add(carry_in);
    AluResult {
        value: new_value,
        z: new_value == 0,
        n: false,
        h: (a % 16) + (b % 16) + carry_in > 0xF,
        c: (a as u16 + b as u16 + carry_in as u16) > 0xFF,
    }
}

pub fn alu_sub(a: u8, b: u8, carry: bool) -> (result: AluResult)
    ensures
        result == sub8(a, b, carry),
{
    let carry_in: u8 = if carry {
        1
    } else {
        0
    };
    let new_value: u8 = a.wrapping_sub(b).wrapping_sub(carry_in);
    AluResult {
        value: new_value,
        z: new_value == 0,
        n: true,
        h: (a % 16) < (b % 16) + carry_in,
        c: (a as u16) < (b as u16) + (carry_in as u16),
    }
}

pub fn alu(op: AluOp, a: u8, b: u8, carry: bool) -> (result: AluResult)
    ensures
        result == alu8(op, a, b, carry),
{
    match op {
        AluOp::Add => alu_add(a, b, false),
        AluOp::Adc => alu_add(a, b, carry),
        AluOp::Sub => alu_sub(a, b, false),
        AluOp::Sbc => alu_sub(a, b, carry),
        AluOp::And => {
            let value: u8 = a & b;
            AluResult { value, z: value == 0, n: false, h: true, c: false }
        },
        AluOp::Xor => {
            let value: u8 = a ^ b;
            AluResult { value, z: value == 0, n: false, h: false, c: false }
        },
        AluOp::Or => {
            let value: u8 = a | b;
            AluResult { value, z: value == 0, n: false, h: false, c: false }
        },
        AluOp::Cp => {
            let compared = alu_sub(a, b, false);
            AluResult { value: a, z: compared.z, n: true, h: compared.h, c: compared.c }
        },
    }
}

pub fn shift(op: ShiftOp, v: u8, carry: bool) -> (result: AluResult)
    ensures
        result == shift8(op, v, carry),
{
    proof {
        reveal(shift8);
    }
    let carry_in: u8 = if carry {
        1
    } else {
        0
    };
    let value: u8 = match op {
        ShiftOp::Rlc => (v % 128) * 2 + v / 128,
        ShiftOp::Rrc => v / 2 + (v % 2) * 128,
        ShiftOp::Rl => (v % 128) * 2 + carry_in,
        ShiftOp::Rr => v / 2 + carry_in * 128,
        ShiftOp::Sla => (v % 128) * 2,
        ShiftOp::Sra => v / 2 + (v / 128) * 128,
        ShiftOp::Swap => (v % 16) * 16 + v / 16,
        ShiftOp::Srl => v / 2,
    };
    let carry_out: bool = match op {
        ShiftOp::Rlc | ShiftOp::Rl | ShiftOp::Sla => v >= 128,
        ShiftOp::Rrc | ShiftOp::Rr | ShiftOp::Sra | ShiftOp::Srl => v % 2 == 1,
        ShiftOp::Swap => false,
    };
    AluResult { value, z: value == 0, n: false, h: false, c: carry_out }
}

pub fn alu_daa(a: u8, n: bool, h: bool, c: bool) -> (result: AluResult)
    ensures
        result == daa8(a, n, h, c),
{
    let mut value: u8 = a;
    let mut carry: bool = c;
    if !n {
        if c || value > 0x99 {
            value = value.wrapping_add(0x60);
            carry = true;
        }
        if h || value % 16 > 0x9 {
            value = value.wrapping_add(0x06);
        }
    } else {
        if c {
            value = value.wrapping_add(0xA0);
        }
        if h {
            value = value.wrapping_add(0xFA);
        }
    }
    AluResult { value, z: value == 0, n, h: false, c: carry }
}

/// The rotations and shifts as they act on the bits of the byte.
pub proof fn lemma_shift_bits(v: u8, carry: bool)
    ensures
        shift8(ShiftOp::Rlc, v, carry).value == ((v << 1) & !1u8) | ((v >> 7) & 0x1),
        shift8(ShiftOp::Rrc, v, carry).value == ((v >> 1) & !(1u8 << 7)) | ((v & 1) << 7),
        shift8(ShiftOp::Rl, v, carry).value == ((v << 1) & !1u8) | (if carry {
            1u8
        } else {
            0u8
        }),
        shift8(ShiftOp::Rr, v, carry).value == (v >> 1) | (if carry {
            0x80u8
        } else {
            0u8
        }),
        shift8(ShiftOp::Sla, v, carry).value == (v << 1) & !1u8,
        shift8(ShiftOp::Sra, v, carry).value == (v >> 1) | (v & 0b10000000),
        shift8(ShiftOp::Srl, v, carry).value == v >> 1,
        shift8(ShiftOp::Swap, v, carry).value == ((v & 0xF0) >> 4) | ((v & 0x0F) << 4),
        shift8(ShiftOp::Rlc, v, carry).c == ((v >> 7) & 0x1 == 1),
        shift8(ShiftOp::Rrc, v, carry).c == (v & 0x1 == 1),
{
    reveal(shift8);
    assert((v % 128) * 2 + v / 128 == ((v << 1) & !1u8) | ((v >> 7) & 0x1) && v / 2 + (v % 2) * 128
        == ((v >> 1) & !(1u8 << 7)) | ((v & 1) << 7) && (v % 128) * 2 + 1 == ((v << 1) & !1u8)
        | 1u8 && (v % 128) * 2 == ((v << 1) & !1u8) | 0u8 && v / 2 + 128 == (v >> 1) | 0x80u8 && v
        / 2 == (v >> 1) | 0u8 && (v % 128) * 2 == (v << 1) & !1u8 && v / 2 + (v / 128) * 128 == (v
        >> 1) | (v & 0b10000000) && v / 2 == v >> 1 && (v % 16) * 16 + v / 16 == ((v & 0xF0) >> 4)
        | ((v & 0x0F) << 4) && (v >= 128) == ((v >> 7) & 0x1 == 1) && (v % 2 == 1) == (v & 0x1
        == 1)) by (bit_vector);
}

/// Every operation of the accumulator leaves in the flag register exactly
/// the flags of its result: Z for a result of zero, N for a subtraction or
/// comparison, H and C as the carries or borrows of the operation say, and for
/// the logical operations H set only by AND and C clear.
pub proof fn lemma_alu_flags(op: AluOp, a: u8, b: u8, carry: bool)
    ensures
        alu8(op, a, b, carry).flags() / 128 % 2 == 1 <==> alu8(op, a, b, carry).z,
        alu8(op, a, b, carry).flags() / 64 % 2 == 1 <==> alu8(op, a, b, carry).n,
        alu8(op, a, b, carry).flags() / 32 % 2 == 1 <==> alu8(op, a, b, carry).h,
        alu8(op, a, b, carry).flags() / 16 % 2 == 1 <==> alu8(op, a, b, carry).c,
        alu8(op, a, b, carry).flags() % 16 == 0,
        alu8(op, a, b, carry).n <==> (op == AluOp::Sub || op == AluOp::Sbc || op == AluOp::Cp),
        op != AluOp::Cp ==> (alu8(op, a, b, carry).z <==> alu8(op, a, b, carry).value == 0),
        op == AluOp::Cp ==> (alu8(op, a, b, carry).z <==> a == b),
        op == AluOp::Add ==> (alu8(op, a, b, carry).h <==> (a & 0xF) + (b & 0xF) > 0xF),
        op == AluOp::Adc ==> (alu8(op, a, b, carry).h <==> (a & 0xF) + (b & 0xF) + carry_of(carry)
            > 0xF),
        op == AluOp::Sub || op == AluOp::Cp ==> (alu8(op, a, b, carry).h <==> (a & 0xF) - (b
            & 0xF) < 0),
        op == AluOp::Sbc ==> (alu8(op, a, b, carry).h <==> (a & 0xF) - (b & 0xF) - carry_of(carry)
            < 0),
{
    let r = alu8(op, a, b, carry);
    lemma_flags_byte(r.z, r.n, r.h, r.c);
    assert(a & 0xF == a % 16 && b & 0xF == b % 16) by (bit_vector);
}

/// After an addition of two packed decimal numbers, the decimal adjustment
/// gives the packed decimal sum, with C set exactly when the sum is 100 or
/// more.
pub proof fn lemma_daa_after_add(a: u8, b: u8, carry: bool)
    requires
        is_bcd(a),
        is_bcd(b),
    ensures
        ({
            let sum = add8(a, b, carry);
            let adjusted = daa8(sum.value, sum.n, sum.h, sum.c);
            &&& is_bcd(adjusted.value)
            &&& bcd_value(adjusted.value) == (bcd_value(a) + bcd_value(b) + carry_of(carry)) % 100
            &&& adjusted.c <==> bcd_value(a) + bcd_value(b) + carry_of(carry) >= 100
            &&& adjusted.z <==> adjusted.value == 0
        }),
{
    let sum = add8(a, b, carry);
    let adjusted = daa8(sum.value, sum.n, sum.h, sum.c);
    let cin: u8 = if carry {
        1
    } else {
        0
    };
    let v = sum.value;
    let h = sum.h;
    let c = sum.c;
    let high: u8 = if c || v > 0x99 {
        0x60
    } else {
        0
    };
    let low: u8 = if h || (v + high) % 16 > 0x9 {
        0x06
    } else {
        0
    };
    let r = adjusted.value;
    let total: u16 = ((a / 16) * 10 + a % 16 + (b / 16) * 10 + b % 16 + cin) as u16;
    assert((bcd_value(a) + bcd_value(b) + carry_of(carry)) == total);
    assert(v == (a + b + cin) as u16 % 256);
    assert((v + high) % 16 == (v + high) as u16 % 16);
    assert(r == (v + high + low) as u16 % 256);
    assert((a / 16 <= 9 && a % 16 <= 9 && b / 16 <= 9 && b % 16 <= 9 && cin <= 1 && total == ((a
        / 16) * 10 + a % 16 + (b / 16) * 10 + b % 16 + cin) as u16 && v == (a + b + cin) as u16
        % 256 && (h <==> (a % 16 + b % 16 + cin > 0xF)) && (c <==> (a + b + cin > 0xFF)) && high
        == (if c || v > 0x99 {
        0x60u8
    } else {
        0u8
    }) && low == (if h || (v + high) as u16 % 16 > 0x9 {
        0x06u8
    } else {
        0u8
    }) && r == (v + high + low) as u16 % 256) ==> (r / 16 <= 9 && r % 16 <= 9 && (r / 16) * 10 + r
        % 16 == total % 100 && ((c || v > 0x99) <==> total >= 100))) by (bit_vector);
}

/// After a subtraction of two packed decimal numbers, the decimal
/// adjustment gives the packed decimal difference, with C set exactly when the
/// difference is below zero.
pub proof fn lemma_daa_after_sub(a: u8, b: u8, carry: bool)
    requires
        is_bcd(a),
        is_bcd(b),
    ensures
        ({
            let difference = sub8(a, b, carry);
            let adjusted = daa8(difference.value, difference.n, difference.h, difference.c);
            &&& is_bcd(adjusted.value)
            &&& bcd_value(adjusted.value) == (bcd_value(a) - bcd_value(b) - carry_of(carry)) % 100
            &&& adjusted.c <==> bcd_value(a) - bcd_value(b) - carry_of(carry) < 0
            &&& adjusted.z <==> adjusted.value == 0
        }),
{
    let difference = sub8(a, b, carry);
    let adjusted = daa8(difference.value, difference.n, difference.h, difference.c);
    let cin: u8 = if carry {
        1
    } else {
        0
    };
    let v = difference.value;
    let h = difference.h;
    let c = difference.c;
    let high: u8 = if c {
        0x60
    } else {
        0
    };
    let low: u8 = if h {
        0x06
    } else {
        0
    };
    let r = adjusted.value;
    // The value of the difference, and 100 more than the decimal difference,
    // as numbers that cannot be negative.
    let raw: u16 = (256 + a - b - cin) as u16;
    let wanted: u16 = (100 + bcd_value(a) - bcd_value(b) - cin) as u16;
    let twice: u16 = (512 + v - high - low) as u16;
    assert(v == raw % 256) by {
        vstd::arithmetic::div_mod::lemma_mod_multiples_vanish(1, a - b - cin, 256);
    }
    assert(r == twice % 256) by {
        vstd::arithmetic::div_mod::lemma_mod_multiples_vanish(2, v - high - low, 256);
    }
    assert((bcd_value(a) - bcd_value(b) - cin) % 100 == wanted % 100) by {
        vstd::arithmetic::div_mod::lemma_mod_multiples_vanish(
            1,
            bcd_value(a) - bcd_value(b) - cin,
            100,
        );
    }
    assert(wanted < 100 <==> bcd_value(a) - bcd_value(b) - cin < 0);
    assert(h <==> (a % 16 < b % 16 + cin));
    assert(c <==> (raw < 256));
    assert((a / 16 <= 9 && a % 16 <= 9 && b / 16 <= 9 && b % 16 <= 9 && cin <= 1 && raw == (256 + a
        - b - cin) as u16 && wanted == (100 + (a / 16) * 10 + a % 16 - (b / 16) * 10 - b % 16
        - cin) as u16 && v == raw % 256 && (h <==> (a % 16 < b % 16 + cin)) && (c <==> (raw < 256))
        && high == (if c {
        0x60u8
    } else {
        0u8
    }) && low == (if h {
        0x06u8
    } else {
        0u8
    }) && twice == (512 + v - high - low) as u16 && r == twice % 256) ==> (r / 16 <= 9 && r % 16
        <= 9 && (r / 16) * 10 + r % 16 == wanted % 100 && (c <==> wanted < 100))) by (bit_vector);
}

} // verus!
