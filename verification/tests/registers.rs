use oxidgb_core::cpu::regs::Registers;

fn zeroed() -> Registers {
    Registers { a: 0, b: 0, c: 0, d: 0, e: 0, f: 0, h: 0, l: 0, sp: 0, pc: 0 }
}

#[test]
fn paired_registers_read_back_what_was_set() {
    let mut regs = zeroed();
    for val in [0x0000u16, 0x0001, 0x00FF, 0x0100, 0x1234, 0xABCD, 0xFFFF] {
        regs.set_bc(val);
        assert_eq!(regs.get_bc(), val);
        regs.set_de(val);
        assert_eq!(regs.get_de(), val);
        regs.set_hl(val);
        assert_eq!(regs.get_hl(), val);
    }
}

#[test]
fn af_keeps_only_the_high_nibble_of_f() {
    let mut regs = zeroed();
    regs.set_af(0x12FF);
    assert_eq!(regs.get_af(), 0x12F0);
    assert_eq!(regs.a, 0x12);
    assert_eq!(regs.f, 0xF0);
    regs.set_af(0xABCD);
    assert_eq!(regs.get_af(), 0xABC0);
}

#[test]
fn every_sixteen_bit_value_round_trips() {
    let mut regs = zeroed();
    for val in 0..=0xFFFFu16 {
        regs.set_hl(val);
        assert_eq!(regs.get_hl(), val);
        regs.set_af(val);
        assert_eq!(regs.get_af(), val & 0xFFF0);
    }
}

#[test]
fn pairs_are_high_byte_then_low_byte() {
    let mut regs = zeroed();
    regs.b = 0x12;
    regs.c = 0x34;
    regs.d = 0x56;
    regs.e = 0x78;
    regs.h = 0x9A;
    regs.l = 0xBC;
    assert_eq!(regs.get_bc(), 0x1234);
    assert_eq!(regs.get_de(), 0x5678);
    assert_eq!(regs.get_hl(), 0x9ABC);
}

#[test]
fn flags_sit_in_the_high_nibble_of_f() {
    let mut regs = zeroed();
    regs.set_flag_z(true);
    assert_eq!(regs.f, 0x80);
    regs.set_flag_n(true);
    assert_eq!(regs.f, 0xC0);
    regs.set_flag_h(true);
    assert_eq!(regs.f, 0xE0);
    regs.set_flag_c(true);
    assert_eq!(regs.f, 0xF0);
    assert!(regs.get_flag_z() && regs.get_flag_n() && regs.get_flag_h() && regs.get_flag_c());
    regs.set_flag_n(false);
    assert_eq!(regs.f, 0xB0);
    assert!(!regs.get_flag_n());
    regs.set_flag_z(false);
    regs.set_flag_h(false);
    regs.set_flag_c(false);
    assert_eq!(regs.f, 0x00);
}

#[test]
fn set_flags_replaces_f() {
    let mut regs = zeroed();
    regs.f = 0xF0;
    regs.set_flags(false, true, false, true);
    assert_eq!(regs.f, 0x50);
    regs.set_flags(true, false, true, false);
    assert_eq!(regs.f, 0xA0);
}
