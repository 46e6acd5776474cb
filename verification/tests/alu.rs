use oxidgb_core::cpu::alu::alu;
use oxidgb_core::cpu::alu::alu_add;
use oxidgb_core::cpu::alu::alu_daa;
use oxidgb_core::cpu::alu::alu_sub;
use oxidgb_core::cpu::alu::shift;
use oxidgb_core::cpu::alu::AluOp;
use oxidgb_core::cpu::alu::AluResult;
use oxidgb_core::cpu::alu::ShiftOp;

#[test]
fn addition_sets_half_carry_and_carry() {
    assert_eq!(alu_add(0x0F, 0x01, false), AluResult { value: 0x10, z: false, n: false, h: true, c: false });
    assert_eq!(alu_add(0xFF, 0x01, false), AluResult { value: 0x00, z: true, n: false, h: true, c: true });
    assert_eq!(alu_add(0xF0, 0x20, false), AluResult { value: 0x10, z: false, n: false, h: false, c: true });
    assert_eq!(alu_add(0x0F, 0x00, true), AluResult { value: 0x10, z: false, n: false, h: true, c: false });
    assert_eq!(alu_add(0xFF, 0xFF, true), AluResult { value: 0xFF, z: false, n: false, h: true, c: true });
}

#[test]
fn subtraction_sets_borrows() {
    assert_eq!(alu_sub(0x10, 0x01, false), AluResult { value: 0x0F, z: false, n: true, h: true, c: false });
    assert_eq!(alu_sub(0x00, 0x01, false), AluResult { value: 0xFF, z: false, n: true, h: true, c: true });
    assert_eq!(alu_sub(0x42, 0x42, false), AluResult { value: 0x00, z: true, n: true, h: false, c: false });
    assert_eq!(alu_sub(0x10, 0x0F, true), AluResult { value: 0x00, z: true, n: true, h: true, c: false });
    assert_eq!(alu_sub(0x00, 0xFF, true), AluResult { value: 0x00, z: true, n: true, h: true, c: true });
}

#[test]
fn flags_match_their_formulas_on_every_pair() {
    for a in 0..=255u16 {
        for b in 0..=255u16 {
            for carry in [false, true] {
                let cin = carry as u16;
                let sum = alu(AluOp::Adc, a as u8, b as u8, carry);
                assert_eq!(sum.value as u16, (a + b + cin) & 0xFF);
                assert_eq!(sum.z, (a + b + cin) & 0xFF == 0);
                assert!(!sum.n);
                assert_eq!(sum.h, (a & 0xF) + (b & 0xF) + cin > 0xF);
                assert_eq!(sum.c, a + b + cin > 0xFF);
                let difference = alu(AluOp::Sbc, a as u8, b as u8, carry);
                assert_eq!(difference.value, (a as u8).wrapping_sub(b as u8).wrapping_sub(cin as u8));
                assert_eq!(difference.z, difference.value == 0);
                assert!(difference.n);
                assert_eq!(difference.h, (a & 0xF) < (b & 0xF) + cin);
                assert_eq!(difference.c, a < b + cin);
                let plain_sum = alu(AluOp::Add, a as u8, b as u8, carry);
                assert_eq!(plain_sum, alu_add(a as u8, b as u8, false));
                let plain_difference = alu(AluOp::Sub, a as u8, b as u8, carry);
                assert_eq!(plain_difference, alu_sub(a as u8, b as u8, false));
                let compared = alu(AluOp::Cp, a as u8, b as u8, carry);
                assert_eq!(compared.value, a as u8);
                assert_eq!((compared.z, compared.n, compared.h, compared.c), (a == b, true, (a & 0xF) < (b & 0xF), a < b));
                let and = alu(AluOp::And, a as u8, b as u8, carry);
                assert_eq!(and, AluResult { value: (a & b) as u8, z: a & b == 0, n: false, h: true, c: false });
                let or = alu(AluOp::Or, a as u8, b as u8, carry);
                assert_eq!(or, AluResult { value: (a | b) as u8, z: a | b == 0, n: false, h: false, c: false });
                let xor = alu(AluOp::Xor, a as u8, b as u8, carry);
                assert_eq!(xor, AluResult { value: (a ^ b) as u8, z: a ^ b == 0, n: false, h: false, c: false });
            }
        }
    }
}

#[test]
fn rotations_and_shifts() {
    assert_eq!(shift(ShiftOp::Rlc, 0x85, false), AluResult { value: 0x0B, z: false, n: false, h: false, c: true });
    assert_eq!(shift(ShiftOp::Rrc, 0x01, false), AluResult { value: 0x80, z: false, n: false, h: false, c: true });
    assert_eq!(shift(ShiftOp::Rl, 0x80, false), AluResult { value: 0x00, z: true, n: false, h: false, c: true });
    assert_eq!(shift(ShiftOp::Rl, 0x11, true), AluResult { value: 0x23, z: false, n: false, h: false, c: false });
    assert_eq!(shift(ShiftOp::Rr, 0x01, false), AluResult { value: 0x00, z: true, n: false, h: false, c: true });
    assert_eq!(shift(ShiftOp::Rr, 0x8A, true), AluResult { value: 0xC5, z: false, n: false, h: false, c: false });
    assert_eq!(shift(ShiftOp::Sla, 0xFF, false), AluResult { value: 0xFE, z: false, n: false, h: false, c: true });
    assert_eq!(shift(ShiftOp::Sra, 0x8A, false), AluResult { value: 0xC5, z: false, n: false, h: false, c: false });
    assert_eq!(shift(ShiftOp::Sra, 0x01, false), AluResult { value: 0x00, z: true, n: false, h: false, c: true });
    assert_eq!(shift(ShiftOp::Srl, 0xFF, false), AluResult { value: 0x7F, z: false, n: false, h: false, c: true });
    assert_eq!(shift(ShiftOp::Swap, 0xF1, true), AluResult { value: 0x1F, z: false, n: false, h: false, c: false });
    assert_eq!(shift(ShiftOp::Swap, 0x00, true), AluResult { value: 0x00, z: true, n: false, h: false, c: false });
}

#[test]
fn rotations_match_their_bit_patterns_on_every_byte() {
    for v in 0..=255u8 {
        for carry in [false, true] {
            let cin = carry as u8;
            assert_eq!(shift(ShiftOp::Rlc, v, carry).value, v.rotate_left(1));
            assert_eq!(shift(ShiftOp::Rrc, v, carry).value, v.rotate_right(1));
            assert_eq!(shift(ShiftOp::Rl, v, carry).value, (v << 1) | cin);
            assert_eq!(shift(ShiftOp::Rr, v, carry).value, (v >> 1) | (cin << 7));
            assert_eq!(shift(ShiftOp::Sla, v, carry).value, v << 1);
            assert_eq!(shift(ShiftOp::Sra, v, carry).value, ((v as i8) >> 1) as u8);
            assert_eq!(shift(ShiftOp::Srl, v, carry).value, v >> 1);
            assert_eq!(shift(ShiftOp::Swap, v, carry).value, (v >> 4) | (v << 4));
        }
    }
}

#[test]
fn decimal_adjust_after_addition() {
    // 0x15 + 0x27 = 0x3C, which stands for 42.
    let sum = alu_add(0x15, 0x27, false);
    assert_eq!(sum.value, 0x3C);
    let adjusted = alu_daa(sum.value, sum.n, sum.h, sum.c);
    assert_eq!(adjusted, AluResult { value: 0x42, z: false, n: false, h: false, c: false });
    // 0x99 + 0x01 = 100: the result is 00 with carry.
    let sum = alu_add(0x99, 0x01, false);
    let adjusted = alu_daa(sum.value, sum.n, sum.h, sum.c);
    assert_eq!(adjusted, AluResult { value: 0x00, z: true, n: false, h: false, c: true });
}

#[test]
fn decimal_adjust_after_subtraction() {
    // 0x42 - 0x15 = 0x2D, which stands for 27.
    let difference = alu_sub(0x42, 0x15, false);
    assert_eq!(difference.value, 0x2D);
    let adjusted = alu_daa(difference.value, difference.n, difference.h, difference.c);
    assert_eq!(adjusted, AluResult { value: 0x27, z: false, n: true, h: false, c: false });
    // 0x00 - 0x01 = -1: the result is 99 with borrow.
    let difference = alu_sub(0x00, 0x01, false);
    let adjusted = alu_daa(difference.value, difference.n, difference.h, difference.c);
    assert_eq!(adjusted, AluResult { value: 0x99, z: false, n: true, h: false, c: true });
}

#[test]
fn decimal_adjust_is_right_for_all_decimal_operands() {
    for x in 0..100u16 {
        for y in 0..100u16 {
            for carry in [false, true] {
                let a = ((x / 10) << 4 | (x % 10)) as u8;
                let b = ((y / 10) << 4 | (y % 10)) as u8;
                let cin = carry as u16;
                let sum = alu_add(a, b, carry);
                let adjusted = alu_daa(sum.value, sum.n, sum.h, sum.c);
                let wanted = (x + y + cin) % 100;
                assert_eq!(adjusted.value, ((wanted / 10) << 4 | (wanted % 10)) as u8);
                assert_eq!(adjusted.c, x + y + cin >= 100);
                let difference = alu_sub(a, b, carry);
                let adjusted = alu_daa(difference.value, difference.n, difference.h, difference.c);
                let wanted = (100 + x - y - cin) % 100;
                assert_eq!(adjusted.value, ((wanted / 10) << 4 | (wanted % 10)) as u8);
                assert_eq!(adjusted.c, x < y + cin);
            }
        }
    }
}
