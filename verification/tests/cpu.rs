use oxidgb_core::cpu::cpu::BadInstruction;
use oxidgb_core::cpu::cpu::CPU;
use oxidgb_core::cpu::instrs::execute_instruction;
use oxidgb_core::cpu::instrs::is_known;
use oxidgb_core::cpu::interrupts::InterruptType;
use oxidgb_core::gpu::GPUMode;
use oxidgb_core::mem::GBMemory;
use oxidgb_core::rom::GameROM;

/// A processor with a 32 KiB image that holds `program` at 0x0100 and
/// `handler` at 0x0040.
fn machine_with_handler(program: &[u8], handler: &[u8]) -> CPU {
    let mut data = vec![0u8; 0x8000];
    data[0x100..0x100 + program.len()].copy_from_slice(program);
    data[0x40..0x40 + handler.len()].copy_from_slice(handler);
    CPU::build(GBMemory::build(GameROM::build(data)))
}

fn machine(program: &[u8]) -> CPU {
    machine_with_handler(program, &[])
}

/// Runs one instruction and returns its cycles, told from the divider.
fn step(cpu: &mut CPU) -> u16 {
    let before = cpu.mem.ioregs.div;
    assert!(cpu.tick().is_ok());
    cpu.mem.ioregs.div.wrapping_sub(before)
}

#[test]
fn power_on_registers() {
    let cpu = machine(&[]);
    assert_eq!(cpu.regs.a, 0x01);
    assert_eq!(cpu.regs.f, 0xB0);
    assert_eq!(cpu.regs.b, 0x00);
    assert_eq!(cpu.regs.c, 0x13);
    assert_eq!(cpu.regs.d, 0x00);
    assert_eq!(cpu.regs.e, 0xD8);
    assert_eq!(cpu.regs.h, 0x01);
    assert_eq!(cpu.regs.l, 0x4D);
    assert_eq!(cpu.regs.sp, 0xFFFE);
    assert_eq!(cpu.regs.pc, 0x0100);
    assert!(!cpu.halted && !cpu.stopped);
}

#[test]
fn nop_and_jump_loop() {
    let mut cpu = machine(&[0x00, 0xC3, 0x00, 0x01]);
    for _ in 0..1000 {
        assert!(cpu.tick().is_ok());
    }
    assert_eq!(cpu.regs.pc, 0x0100);
    assert_eq!(cpu.regs.sp, 0xFFFE);
    assert_eq!(cpu.regs.a, 0x01);
}

#[test]
fn cycles_of_the_instructions() {
    // NOP; LD B,n; LD B,C; LD B,(HL); LD (HL),n; INC B; INC (HL); INC BC;
    // ADD HL,BC; ADD A,B; ADD A,(HL); ADD A,n; LD (nn),SP; LD SP,HL;
    // LD HL,SP+n; ADD SP,n; PUSH BC; POP BC; LDH (n),A; LDH A,(n); LD (C),A;
    // LD A,(nn); LD (nn),A; RLCA; RLC B; RLC (HL); BIT 0,B; BIT 0,(HL);
    // SET 0,(HL); JP (HL)
    let mut cpu = machine(&[
        0x00, 0x06, 0x12, 0x41, 0x46, 0x36, 0x00, 0x04, 0x34, 0x03, 0x09, 0x80, 0x86, 0xC6,
        0x01, 0x08, 0x00, 0xC0, 0xF9, 0xF8, 0x01, 0xE8, 0x01, 0xC5, 0xC1, 0xE0, 0x80, 0xF0,
        0x80, 0xE2, 0xFA, 0x00, 0xC0, 0xEA, 0x00, 0xC0, 0x07, 0xCB, 0x00, 0xCB, 0x06, 0xCB,
        0x40, 0xCB, 0x46, 0xCB, 0xC6, 0xE9,
    ]);
    cpu.regs.set_hl(0xC100);
    let wanted = [
        4, 8, 4, 8, 12, 4, 12, 8, 8, 4, 8, 8, 20, 8, 12, 16, 16, 12, 12, 12, 8, 16, 16, 4, 8,
        16, 8, 16, 16, 4,
    ];
    for cycles in wanted {
        assert_eq!(step(&mut cpu), cycles);
    }
}

#[test]
fn cycles_of_the_branches() {
    let mut cpu = machine(&[
        0x18, 0x00, // JR +0                12
        0xAF, // XOR A: Z set              4
        0x20, 0x00, // JR NZ: not taken      8
        0x28, 0x00, // JR Z: taken          12
        0xC2, 0x00, 0x00, // JP NZ: not     12
        0xCA, 0x0D, 0x01, // JP Z: taken    16
        0xC4, 0x00, 0x00, // CALL NZ: not   12
        0xC0, // RET NZ: not                8
        0xCC, 0x17, 0x01, // CALL Z 0x117   24
        0xC3, 0x1A, 0x01, // JP 0x11A       16
        0xC8, // (0x117) RET Z: taken      20
        0x00, 0x00, // padding
        0xCD, 0x1E, 0x01, // (0x11A) CALL  24
        0x76, // (0x11D) HALT               4
        0xC9, // (0x11E) RET               16
    ]);
    let wanted = [12, 4, 8, 12, 12, 16, 12, 8, 24, 20, 16, 24, 16, 4];
    for cycles in wanted {
        assert_eq!(step(&mut cpu), cycles);
    }
    assert!(cpu.halted);
    assert_eq!(cpu.regs.pc, 0x011E);
    assert_eq!(cpu.regs.sp, 0xFFFE);
    // A halted processor lets 64 cycles pass in a tick.
    assert_eq!(step(&mut cpu), 64);
}

#[test]
fn restart_pushes_and_jumps() {
    let mut cpu = machine(&[0xEF]);
    assert_eq!(step(&mut cpu), 16);
    assert_eq!(cpu.regs.pc, 0x0028);
    assert_eq!(cpu.regs.sp, 0xFFFC);
    assert_eq!(cpu.mem.read_short(0xFFFC), 0x0101);
}

#[test]
fn loads_between_registers() {
    // LD B,0x12; LD C,B; LD D,C; LD E,D; LD H,E; LD L,H; LD A,L
    let mut cpu = machine(&[0x06, 0x12, 0x48, 0x51, 0x5A, 0x63, 0x6C, 0x7D]);
    for _ in 0..7 {
        step(&mut cpu);
    }
    assert_eq!(cpu.regs.a, 0x12);
    assert_eq!(cpu.regs.get_bc(), 0x1212);
    assert_eq!(cpu.regs.get_de(), 0x1212);
    assert_eq!(cpu.regs.get_hl(), 0x1212);
    assert_eq!(cpu.regs.pc, 0x0108);
}

#[test]
fn loads_through_hl() {
    // LD HL,0xC000; LD (HL),0x42; LD B,(HL); LD A,0x99; LDI (HL),A;
    // LDD (HL),A; LDI A,(HL); LD (HL),B
    let mut cpu = machine(&[
        0x21, 0x00, 0xC0, 0x36, 0x42, 0x46, 0x3E, 0x99, 0x22, 0x32, 0x2A, 0x70,
    ]);
    for _ in 0..5 {
        step(&mut cpu);
    }
    assert_eq!(cpu.regs.b, 0x42);
    assert_eq!(cpu.mem.read(0xC000), 0x99);
    assert_eq!(cpu.regs.get_hl(), 0xC001);
    step(&mut cpu);
    assert_eq!(cpu.mem.read(0xC001), 0x99);
    assert_eq!(cpu.regs.get_hl(), 0xC000);
    step(&mut cpu);
    assert_eq!(cpu.regs.a, 0x99);
    assert_eq!(cpu.regs.get_hl(), 0xC001);
    step(&mut cpu);
    assert_eq!(cpu.mem.read(0xC001), 0x42);
}

#[test]
fn loads_through_other_addresses() {
    // LD BC,0xC010; LD DE,0xC020; LD A,0x11; LD (BC),A; LD A,0x22; LD (DE),A;
    // LD A,(BC); LD (0xC030),A; LD A,(DE); LDH (0x80),A; LD C,0x81; LD (C),A;
    // LD A,0; LDH A,(0x80); LD A,(C); LD A,(0xC030)
    let mut cpu = machine(&[
        0x01, 0x10, 0xC0, 0x11, 0x20, 0xC0, 0x3E, 0x11, 0x02, 0x3E, 0x22, 0x12, 0x0A, 0xEA,
        0x30, 0xC0, 0x1A, 0xE0, 0x80, 0x0E, 0x81, 0xE2, 0x3E, 0x00, 0xF0, 0x80, 0xF2, 0xFA,
        0x30, 0xC0,
    ]);
    for _ in 0..12 {
        step(&mut cpu);
    }
    assert_eq!(cpu.mem.read(0xC010), 0x11);
    assert_eq!(cpu.mem.read(0xC020), 0x22);
    assert_eq!(cpu.mem.read(0xC030), 0x11);
    assert_eq!(cpu.mem.read(0xFF80), 0x22);
    assert_eq!(cpu.mem.read(0xFF81), 0x22);
    step(&mut cpu);
    assert_eq!(cpu.regs.a, 0x00);
    step(&mut cpu);
    assert_eq!(cpu.regs.a, 0x22);
    cpu.regs.a = 0;
    step(&mut cpu);
    assert_eq!(cpu.regs.a, 0x22);
    step(&mut cpu);
    assert_eq!(cpu.regs.a, 0x11);
}

#[test]
fn sixteen_bit_loads() {
    // LD SP,0xD000; LD (0xC000),SP; LD HL,0x1234; LD SP,HL
    let mut cpu = machine(&[0x31, 0x00, 0xD0, 0x08, 0x00, 0xC0, 0x21, 0x34, 0x12, 0xF9]);
    step(&mut cpu);
    assert_eq!(cpu.regs.sp, 0xD000);
    step(&mut cpu);
    assert_eq!(cpu.mem.read(0xC000), 0x00);
    assert_eq!(cpu.mem.read(0xC001), 0xD0);
    step(&mut cpu);
    step(&mut cpu);
    assert_eq!(cpu.regs.sp, 0x1234);
}

#[test]
fn arithmetic_on_a() {
    // LD A,0x3A; LD B,0xC6; ADD A,B
    let mut cpu = machine(&[0x3E, 0x3A, 0x06, 0xC6, 0x80, 0xCE, 0x0F, 0xD6, 0x11, 0x98, 0xFE, 0x00]);
    for _ in 0..3 {
        step(&mut cpu);
    }
    assert_eq!(cpu.regs.a, 0x00);
    assert_eq!(cpu.regs.f, 0xB0);
    // ADC A,0x0F with carry: 0x10
    step(&mut cpu);
    assert_eq!(cpu.regs.a, 0x10);
    assert_eq!(cpu.regs.f, 0x20);
    // SUB 0x11: 0xFF
    step(&mut cpu);
    assert_eq!(cpu.regs.a, 0xFF);
    assert_eq!(cpu.regs.f, 0x70);
    // SBC A,B with carry: 0xFF - 0xC6 - 1 = 0x38
    step(&mut cpu);
    assert_eq!(cpu.regs.a, 0x38);
    assert_eq!(cpu.regs.f, 0x40);
    // CP 0x00
    step(&mut cpu);
    assert_eq!(cpu.regs.a, 0x38);
    assert_eq!(cpu.regs.f, 0x40);
}

#[test]
fn logic_on_a() {
    // LD A,0x5A; AND 0x0F; OR 0xF0; XOR 0xFA; XOR A
    let mut cpu = machine(&[0x3E, 0x5A, 0xE6, 0x0F, 0xF6, 0xF0, 0xEE, 0xFA, 0xAF]);
    step(&mut cpu);
    step(&mut cpu);
    assert_eq!((cpu.regs.a, cpu.regs.f), (0x0A, 0x20));
    step(&mut cpu);
    assert_eq!((cpu.regs.a, cpu.regs.f), (0xFA, 0x00));
    step(&mut cpu);
    assert_eq!((cpu.regs.a, cpu.regs.f), (0x00, 0x80));
    cpu.regs.a = 0x12;
    step(&mut cpu);
    assert_eq!((cpu.regs.a, cpu.regs.f), (0x00, 0x80));
}

#[test]
fn increments_keep_the_carry() {
    // LD B,0xFF; INC B; DEC B; LD HL,0xC000; INC (HL); DEC (HL); DEC (HL)
    let mut cpu = machine(&[0x06, 0xFF, 0x04, 0x05, 0x21, 0x00, 0xC0, 0x34, 0x35, 0x35]);
    cpu.regs.f = 0x10;
    step(&mut cpu);
    step(&mut cpu);
    assert_eq!((cpu.regs.b, cpu.regs.f), (0x00, 0xB0));
    step(&mut cpu);
    assert_eq!((cpu.regs.b, cpu.regs.f), (0xFF, 0x70));
    cpu.regs.f = 0x00;
    step(&mut cpu);
    step(&mut cpu);
    assert_eq!((cpu.mem.read(0xC000), cpu.regs.f), (0x01, 0x00));
    step(&mut cpu);
    assert_eq!((cpu.mem.read(0xC000), cpu.regs.f), (0x00, 0xC0));
    step(&mut cpu);
    assert_eq!((cpu.mem.read(0xC000), cpu.regs.f), (0xFF, 0x60));
}

#[test]
fn sixteen_bit_arithmetic() {
    // LD HL,0x0FFF; LD BC,0x0001; ADD HL,BC; LD HL,0xFFFF; ADD HL,BC;
    // INC BC; DEC DE; INC SP; ADD HL,HL
    let mut cpu = machine(&[
        0x21, 0xFF, 0x0F, 0x01, 0x01, 0x00, 0x09, 0x21, 0xFF, 0xFF, 0x09, 0x03, 0x1B, 0x33,
        0x29,
    ]);
    cpu.regs.f = 0x80;
    cpu.regs.set_de(0x0000);
    for _ in 0..3 {
        step(&mut cpu);
    }
    assert_eq!(cpu.regs.get_hl(), 0x1000);
    assert_eq!(cpu.regs.f, 0xA0);
    step(&mut cpu);
    step(&mut cpu);
    assert_eq!(cpu.regs.get_hl(), 0x0000);
    assert_eq!(cpu.regs.f, 0xB0);
    step(&mut cpu);
    step(&mut cpu);
    step(&mut cpu);
    assert_eq!(cpu.regs.get_bc(), 0x0002);
    assert_eq!(cpu.regs.get_de(), 0xFFFF);
    assert_eq!(cpu.regs.sp, 0xFFFF);
    assert_eq!(cpu.regs.f, 0xB0);
    cpu.regs.set_hl(0x8800);
    cpu.regs.f = 0x00;
    step(&mut cpu);
    assert_eq!(cpu.regs.get_hl(), 0x1000);
    assert_eq!(cpu.regs.f, 0x30);
}

#[test]
fn stack_pointer_offsets() {
    // LD SP,0x00FF; ADD SP,+1; ADD SP,-1; LD HL,SP+0x10; LD HL,SP-1
    let mut cpu = machine(&[0x31, 0xFF, 0x00, 0xE8, 0x01, 0xE8, 0xFF, 0xF8, 0x10, 0xF8, 0xFF]);
    cpu.regs.f = 0xF0;
    step(&mut cpu);
    step(&mut cpu);
    assert_eq!(cpu.regs.sp, 0x0100);
    assert_eq!(cpu.regs.f, 0x30);
    step(&mut cpu);
    assert_eq!(cpu.regs.sp, 0x00FF);
    // The low byte 0x00 plus 0xFF carries out of neither bit.
    assert_eq!(cpu.regs.f, 0x00);
    step(&mut cpu);
    assert_eq!(cpu.regs.get_hl(), 0x010F);
    assert_eq!(cpu.regs.sp, 0x00FF);
    // 0xFF + 0x10 carries out of bit 7 only.
    assert_eq!(cpu.regs.f, 0x10);
    step(&mut cpu);
    assert_eq!(cpu.regs.get_hl(), 0x00FE);
    // 0xFF + 0xFF carries out of both.
    assert_eq!(cpu.regs.f, 0x30);
}

#[test]
fn rotations_of_a_clear_z() {
    // XOR A; RLCA; LD A,0x80; RLCA; RLA; RRCA; RRA
    let mut cpu = machine(&[0xAF, 0x07, 0x3E, 0x80, 0x07, 0x17, 0x0F, 0x1F]);
    step(&mut cpu);
    step(&mut cpu);
    assert_eq!((cpu.regs.a, cpu.regs.f), (0x00, 0x00));
    step(&mut cpu);
    step(&mut cpu);
    assert_eq!((cpu.regs.a, cpu.regs.f), (0x01, 0x10));
    step(&mut cpu);
    assert_eq!((cpu.regs.a, cpu.regs.f), (0x03, 0x00));
    step(&mut cpu);
    assert_eq!((cpu.regs.a, cpu.regs.f), (0x81, 0x10));
    step(&mut cpu);
    assert_eq!((cpu.regs.a, cpu.regs.f), (0xC0, 0x10));
}

#[test]
fn prefixed_instructions() {
    // LD B,0x80; RLC B; SLA B; SWAP B; LD C,0xF0; SWAP C; SRL C; SRA C;
    // BIT 7,C; BIT 0,C; SET 7,C; RES 0,C; LD HL,0xC000; SET 3,(HL); BIT 3,(HL);
    // RES 3,(HL); RR B; RL B; RRC B
    let mut cpu = machine(&[
        0x06, 0x80, 0xCB, 0x00, 0xCB, 0x20, 0xCB, 0x30, 0x0E, 0xF0, 0xCB, 0x31, 0xCB, 0x39,
        0xCB, 0x29, 0xCB, 0x79, 0xCB, 0x41, 0xCB, 0xF9, 0xCB, 0x81, 0x21, 0x00, 0xC0, 0xCB,
        0xDE, 0xCB, 0x5E, 0xCB, 0x9E, 0xCB, 0x18, 0xCB, 0x10, 0xCB, 0x08,
    ]);
    step(&mut cpu);
    step(&mut cpu);
    assert_eq!((cpu.regs.b, cpu.regs.f), (0x01, 0x10));
    step(&mut cpu);
    assert_eq!((cpu.regs.b, cpu.regs.f), (0x02, 0x00));
    step(&mut cpu);
    assert_eq!((cpu.regs.b, cpu.regs.f), (0x20, 0x00));
    step(&mut cpu);
    step(&mut cpu);
    assert_eq!((cpu.regs.c, cpu.regs.f), (0x0F, 0x00));
    step(&mut cpu);
    assert_eq!((cpu.regs.c, cpu.regs.f), (0x07, 0x10));
    step(&mut cpu);
    assert_eq!((cpu.regs.c, cpu.regs.f), (0x03, 0x10));
    step(&mut cpu);
    assert_eq!((cpu.regs.c, cpu.regs.f), (0x03, 0xB0));
    step(&mut cpu);
    assert_eq!((cpu.regs.c, cpu.regs.f), (0x03, 0x30));
    step(&mut cpu);
    assert_eq!((cpu.regs.c, cpu.regs.f), (0x83, 0x30));
    step(&mut cpu);
    assert_eq!((cpu.regs.c, cpu.regs.f), (0x82, 0x30));
    step(&mut cpu);
    step(&mut cpu);
    assert_eq!(cpu.mem.read(0xC000), 0x08);
    step(&mut cpu);
    assert_eq!(cpu.regs.f, 0x30);
    step(&mut cpu);
    assert_eq!(cpu.mem.read(0xC000), 0x00);
    // RR B with carry set: 0x20 -> 0x90
    step(&mut cpu);
    assert_eq!((cpu.regs.b, cpu.regs.f), (0x90, 0x00));
    // RL B: 0x90 -> 0x20, carry out
    step(&mut cpu);
    assert_eq!((cpu.regs.b, cpu.regs.f), (0x20, 0x10));
    // RRC B: 0x20 -> 0x10
    step(&mut cpu);
    assert_eq!((cpu.regs.b, cpu.regs.f), (0x10, 0x00));
}

#[test]
fn decimal_adjust_in_a_program() {
    // LD A,0x15; ADD A,0x27; DAA; SUB 0x15; DAA
    let mut cpu = machine(&[0x3E, 0x15, 0xC6, 0x27, 0x27, 0xD6, 0x15, 0x27]);
    for _ in 0..3 {
        step(&mut cpu);
    }
    assert_eq!((cpu.regs.a, cpu.regs.f), (0x42, 0x00));
    step(&mut cpu);
    assert_eq!((cpu.regs.a, cpu.regs.f), (0x2D, 0x60));
    step(&mut cpu);
    assert_eq!((cpu.regs.a, cpu.regs.f), (0x27, 0x40));
}

#[test]
fn flag_instructions() {
    // SCF; CCF; CCF; CPL
    let mut cpu = machine(&[0x37, 0x3F, 0x3F, 0x2F]);
    cpu.regs.f = 0xE0;
    cpu.regs.a = 0x35;
    step(&mut cpu);
    assert_eq!(cpu.regs.f, 0x90);
    step(&mut cpu);
    assert_eq!(cpu.regs.f, 0x80);
    step(&mut cpu);
    assert_eq!(cpu.regs.f, 0x90);
    step(&mut cpu);
    assert_eq!((cpu.regs.a, cpu.regs.f), (0xCA, 0xF0));
}

#[test]
fn push_then_pop_restores_the_pair() {
    // PUSH BC; POP BC; PUSH DE; POP DE; PUSH HL; POP HL; PUSH AF; POP AF
    let mut cpu = machine(&[0xC5, 0xC1, 0xD5, 0xD1, 0xE5, 0xE1, 0xF5, 0xF1]);
    cpu.regs.set_bc(0x1234);
    cpu.regs.set_de(0x5678);
    cpu.regs.set_hl(0x9ABC);
    cpu.regs.set_af(0xDEF0);
    for _ in 0..4 {
        step(&mut cpu);
        assert_eq!(cpu.regs.sp, 0xFFFC);
        step(&mut cpu);
        assert_eq!(cpu.regs.sp, 0xFFFE);
    }
    assert_eq!(cpu.regs.get_bc(), 0x1234);
    assert_eq!(cpu.regs.get_de(), 0x5678);
    assert_eq!(cpu.regs.get_hl(), 0x9ABC);
    assert_eq!(cpu.regs.get_af(), 0xDEF0);
}

#[test]
fn pop_af_masks_the_flags() {
    // LD BC,0x12FF; PUSH BC; POP AF; PUSH AF; POP DE
    let mut cpu = machine(&[0x01, 0xFF, 0x12, 0xC5, 0xF1, 0xF5, 0xD1]);
    for _ in 0..3 {
        step(&mut cpu);
    }
    assert_eq!(cpu.regs.a, 0x12);
    assert_eq!(cpu.regs.f, 0xF0);
    step(&mut cpu);
    step(&mut cpu);
    assert_eq!(cpu.regs.get_de(), 0x12F0);
}

#[test]
fn push_writes_low_byte_first_below_the_stack_pointer() {
    let mut cpu = machine(&[0xC5]);
    cpu.regs.sp = 0xD000;
    cpu.regs.set_bc(0x1234);
    step(&mut cpu);
    assert_eq!(cpu.regs.sp, 0xCFFE);
    assert_eq!(cpu.mem.read(0xCFFE), 0x34);
    assert_eq!(cpu.mem.read(0xCFFF), 0x12);
}

#[test]
fn call_then_ret_comes_back() {
    // CALL 0x0110 ... (0x0110) RET
    let mut program = vec![0u8; 0x20];
    program[0] = 0xCD;
    program[1] = 0x10;
    program[2] = 0x01;
    program[0x10] = 0xC9;
    let mut cpu = machine(&program);
    step(&mut cpu);
    assert_eq!(cpu.regs.pc, 0x0110);
    assert_eq!(cpu.regs.sp, 0xFFFC);
    assert_eq!(cpu.mem.read_short(0xFFFC), 0x0103);
    step(&mut cpu);
    assert_eq!(cpu.regs.pc, 0x0103);
    assert_eq!(cpu.regs.sp, 0xFFFE);
}

#[test]
fn relative_jumps_go_both_ways() {
    // JR +2; NOP; NOP; JR -4
    let mut cpu = machine(&[0x18, 0x02, 0x00, 0x00, 0x18, 0xFC]);
    step(&mut cpu);
    assert_eq!(cpu.regs.pc, 0x0104);
    step(&mut cpu);
    assert_eq!(cpu.regs.pc, 0x0102);
}

#[test]
fn unused_opcodes_stop_the_tick() {
    for opcode in [0xD3u8, 0xDB, 0xDD, 0xE3, 0xE4, 0xEB, 0xEC, 0xED, 0xF4, 0xFC, 0xFD] {
        assert!(!is_known(opcode as u16));
        let mut cpu = machine(&[0x00, opcode]);
        assert_eq!(cpu.tick(), Ok(false));
        let div = cpu.mem.ioregs.div;
        assert_eq!(cpu.tick(), Err(BadInstruction { instr: opcode as u16, origin: 0x0101 }));
        assert_eq!(cpu.regs.pc, 0x0101);
        assert_eq!(cpu.mem.ioregs.div, div);
        assert_eq!(cpu.run(10), Err(BadInstruction { instr: opcode as u16, origin: 0x0101 }));
    }
}

#[test]
fn all_other_opcodes_are_known() {
    let unused = [0xD3u16, 0xDB, 0xDD, 0xE3, 0xE4, 0xEB, 0xEC, 0xED, 0xF4, 0xFC, 0xFD];
    for opcode in 0..=0xFFu16 {
        assert_eq!(is_known(opcode), !unused.contains(&opcode));
        assert!(is_known(0xCB | (opcode << 8)));
    }
    assert!(!is_known(0x0100));
}

#[test]
fn every_instruction_takes_between_4_and_24_cycles() {
    for opcode in 0..=0xFFu16 {
        for word in [opcode, 0xCB | (opcode << 8)] {
            if !is_known(word) {
                continue;
            }
            let mut cpu = machine(&[]);
            cpu.regs.set_hl(0xC000);
            let cycles = execute_instruction(&mut cpu, word, 0x0100);
            assert!((4..=24).contains(&cycles));
            assert_eq!(cycles % 4, 0);
            assert_eq!(cpu.regs.f & 0x0F, 0);
        }
    }
}

#[test]
fn ei_takes_effect_after_the_next_instruction() {
    // DI; EI; NOP; NOP
    let mut cpu = machine(&[0xF3, 0xFB, 0x00, 0x00]);
    step(&mut cpu);
    assert!(!cpu.interrupts_enabled);
    step(&mut cpu);
    assert!(!cpu.interrupts_enabled);
    step(&mut cpu);
    assert!(cpu.interrupts_enabled);
    step(&mut cpu);
    assert!(cpu.interrupts_enabled);
}

#[test]
fn ei_followed_by_di_leaves_interrupts_disabled() {
    // DI; EI; DI; NOP; NOP
    let mut cpu = machine(&[0xF3, 0xFB, 0xF3, 0x00, 0x00]);
    for _ in 0..5 {
        step(&mut cpu);
    }
    assert!(!cpu.interrupts_enabled);
    assert_eq!(cpu.interrupts_countdown, -1);
}

#[test]
fn an_interrupt_is_served_at_the_start_of_a_tick() {
    let mut cpu = machine(&[0x00, 0x00]);
    cpu.mem.write(0xFFFF, 0x1F);
    assert!(cpu.throw_interrupt(InterruptType::TIMER));
    assert!(cpu.throw_interrupt(InterruptType::KEYPAD));
    assert_eq!(cpu.mem.ioregs.iflag, 0x14);
    step(&mut cpu);
    // The timer comes first: its routine is at 0x50, and the NOP there has run.
    assert_eq!(cpu.regs.pc, 0x0051);
    assert_eq!(cpu.regs.sp, 0xFFFC);
    assert_eq!(cpu.mem.read_short(0xFFFC), 0x0100);
    assert_eq!(cpu.mem.ioregs.iflag, 0x10);
    assert!(!cpu.interrupts_enabled);
    // With IME clear the joypad interrupt waits.
    step(&mut cpu);
    assert_eq!(cpu.regs.pc, 0x0052);
    assert_eq!(cpu.mem.ioregs.iflag, 0x10);
}

#[test]
fn the_vectors_of_the_interrupts() {
    for (interrupt, vector) in [
        (InterruptType::VBLANK, 0x40u16),
        (InterruptType::LCDC, 0x48),
        (InterruptType::TIMER, 0x50),
        (InterruptType::SERIAL, 0x58),
        (InterruptType::KEYPAD, 0x60),
    ] {
        let mut cpu = machine(&[]);
        cpu.mem.write(0xFFFF, 0x1F);
        assert!(cpu.try_interrupt(interrupt));
        assert_eq!(cpu.regs.pc, vector);
        assert_eq!(interrupt.get_vector(), vector);
        assert_eq!(InterruptType::get_by_bit(interrupt.get_bit()), Some(interrupt));
        assert_eq!(interrupt.get_mask(), 1 << interrupt.get_bit());
    }
    assert_eq!(InterruptType::get_by_bit(5), None);
}

#[test]
fn interrupts_that_are_not_enabled_wait() {
    let mut cpu = machine(&[0x00, 0x00]);
    cpu.mem.write(0xFFFF, 0x01);
    cpu.throw_interrupt(InterruptType::TIMER);
    step(&mut cpu);
    assert_eq!(cpu.regs.pc, 0x0101);
    assert_eq!(cpu.mem.ioregs.iflag, 0x04);
}

#[test]
fn with_ime_clear_an_interrupt_only_ends_halt() {
    // DI; HALT; INC B
    let mut cpu = machine(&[0xF3, 0x76, 0x04]);
    cpu.mem.write(0xFFFF, 0x04);
    step(&mut cpu);
    step(&mut cpu);
    assert!(cpu.halted);
    for _ in 0..10 {
        step(&mut cpu);
        assert!(cpu.halted);
        assert_eq!(cpu.regs.pc, 0x0102);
    }
    cpu.throw_interrupt(InterruptType::TIMER);
    step(&mut cpu);
    assert!(!cpu.halted);
    assert_eq!(cpu.regs.pc, 0x0103);
    assert_eq!(cpu.regs.b, 0x01);
    assert_eq!(cpu.regs.sp, 0xFFFE);
    assert_eq!(cpu.mem.ioregs.iflag, 0x04);
}

#[test]
fn stop_ends_only_with_the_joypad() {
    // STOP; INC B
    let mut cpu = machine(&[0x10, 0x04]);
    cpu.interrupts_enabled = false;
    cpu.mem.write(0xFFFF, 0x1F);
    step(&mut cpu);
    assert!(cpu.stopped);
    cpu.throw_interrupt(InterruptType::TIMER);
    step(&mut cpu);
    assert!(cpu.stopped);
    assert_eq!(cpu.regs.b, 0x00);
    cpu.mem.ioregs.iflag = 0;
    cpu.throw_interrupt(InterruptType::KEYPAD);
    step(&mut cpu);
    assert!(!cpu.stopped);
    assert_eq!(cpu.regs.b, 0x01);
}

#[test]
fn the_divider_counts_the_cycles() {
    let mut cpu = machine(&[0x00, 0xC3, 0x00, 0x01]);
    cpu.mem.write(0xFF04, 0x55);
    assert_eq!(cpu.mem.ioregs.div, 0);
    for _ in 0..26 {
        assert!(cpu.tick().is_ok());
    }
    assert_eq!(cpu.mem.ioregs.div, 13 * 20);
    assert_eq!(cpu.mem.read(0xFF04), 1);
}

#[test]
fn tima_moves_once_a_period() {
    for (tac, period) in [(0x04u8, 1024u32), (0x05, 16), (0x06, 64), (0x07, 256)] {
        let mut cpu = machine(&[0x00, 0xC3, 0x00, 0x01]);
        cpu.mem.write(0xFF07, tac);
        cpu.mem.write(0xFF05, 0x10);
        // The timer has begun to count.
        cpu.timer_counter = 4;
        // NOP and JP take 20 cycles together: 4 * period cycles in all.
        for _ in 0..(period * 4 / 20) * 2 {
            assert!(cpu.tick().is_ok());
        }
        let cycles = (period * 4 / 20) * 20;
        assert_eq!(cpu.mem.ioregs.tima as u32, 0x10 + (4 + cycles - 1) / period);
        assert_eq!(cpu.mem.ioregs.iflag & 0x04, 0);
    }
}

#[test]
fn tima_moves_exactly_once_over_one_period() {
    // Sixteen NOPs are 64 cycles: one period at 65536 Hz.
    let mut cpu = machine(&[0x00; 32]);
    cpu.mem.write(0xFF07, 0x06);
    cpu.mem.write(0xFF05, 0x20);
    cpu.timer_counter = 1;
    for _ in 0..16 {
        step(&mut cpu);
    }
    assert_eq!(cpu.mem.ioregs.tima, 0x21);
    assert_eq!(cpu.timer_counter, 1);
    for _ in 0..16 {
        step(&mut cpu);
    }
    assert_eq!(cpu.mem.ioregs.tima, 0x22);
}

#[test]
fn from_a_count_of_zero_the_first_period_is_one_cycle_longer() {
    let mut cpu = machine(&[0x00; 32]);
    cpu.mem.write(0xFF07, 0x06);
    for _ in 0..16 {
        step(&mut cpu);
    }
    assert_eq!(cpu.mem.ioregs.tima, 0);
    assert_eq!(cpu.timer_counter, 64);
    step(&mut cpu);
    assert_eq!(cpu.mem.ioregs.tima, 1);
    assert_eq!(cpu.timer_counter, 4);
}

#[test]
fn tima_overflow_reloads_and_raises_the_timer_interrupt() {
    let mut cpu = machine(&[0x00; 32]);
    cpu.interrupts_enabled = false;
    cpu.mem.write(0xFF07, 0x05);
    cpu.mem.write(0xFF06, 0x42);
    cpu.mem.write(0xFF05, 0xFF);
    cpu.timer_counter = 1;
    for _ in 0..3 {
        step(&mut cpu);
    }
    assert_eq!(cpu.mem.ioregs.tima, 0xFF);
    assert_eq!(cpu.mem.ioregs.iflag, 0x00);
    step(&mut cpu);
    assert_eq!(cpu.mem.ioregs.tima, 0x42);
    assert_eq!(cpu.mem.ioregs.iflag, 0x04);
    assert!(cpu.mem.dirty_interrupts);
}

#[test]
fn a_stopped_timer_does_not_count() {
    let mut cpu = machine(&[0x00; 64]);
    cpu.mem.write(0xFF07, 0x01);
    for _ in 0..40 {
        step(&mut cpu);
    }
    assert_eq!(cpu.mem.ioregs.tima, 0);
    assert_eq!(cpu.timer_counter, 0);
}

#[test]
fn one_frame_with_a_blank_screen() {
    // LD A,0x80; LDH (0x40),A; JR -2
    let mut cpu = machine(&[0x3E, 0x80, 0xE0, 0x40, 0x18, 0xFE]);
    let mut blanks = 0;
    let mut cycles = 0u32;
    while cycles < 70224 {
        let before = cpu.mem.ioregs.div;
        if cpu.tick() == Ok(true) {
            blanks += 1;
            assert_eq!(cpu.mem.gpu.current_line, 144);
        }
        cycles += cpu.mem.ioregs.div.wrapping_sub(before) as u32;
    }
    assert_eq!(blanks, 1);
    assert_eq!(cpu.mem.gpu.lcdc, 0x80);
    assert_eq!(cpu.mem.gpu.pixel_data.len(), 160 * 144 * 3);
    for i in 0..160 * 144 {
        assert_eq!(cpu.mem.gpu.pixel_data[i * 3..i * 3 + 3], [224, 248, 208]);
    }
}

#[test]
fn run_returns_at_the_vertical_blank() {
    let mut cpu = machine(&[0x18, 0xFE]);
    assert_eq!(cpu.run(1_000_000), Ok(true));
    assert_eq!(cpu.mem.gpu.current_line, 144);
    assert_eq!(cpu.mem.gpu.mode, GPUMode::Vblank);
    assert_eq!(cpu.mem.ioregs.iflag & 0x01, 0x01);
    // From power-on the blank is 6 lines away, then come 144 lines.
    let ticks_of_a_frame = 70224 / 12;
    let mut ticks = 0;
    while cpu.run(1) == Ok(false) {
        ticks += 1;
    }
    assert_eq!(ticks + 1, ticks_of_a_frame);
}

#[test]
fn run_gives_up_when_the_ticks_run_out() {
    let mut cpu = machine(&[0x18, 0xFE]);
    assert_eq!(cpu.run(0), Ok(false));
    assert_eq!(cpu.regs.pc, 0x0100);
    assert_eq!(cpu.run(10), Ok(false));
    assert_eq!(cpu.mem.ioregs.div, 0xABCC + 120);
    // A disabled screen never reaches the blank.
    cpu.mem.write(0xFF40, 0x11);
    assert_eq!(cpu.run(100_000), Ok(false));
}

#[test]
fn the_vertical_blank_handler_runs() {
    // At 0x40: LD B,0xAB; RETI
    // At 0x100: LD A,0x01; LDH (0xFF),A; EI; JR -2
    let mut cpu = machine_with_handler(
        &[0x3E, 0x01, 0xE0, 0xFF, 0xFB, 0x18, 0xFE],
        &[0x06, 0xAB, 0xD9],
    );
    assert_eq!(cpu.run(1_000_000), Ok(true));
    assert_eq!(cpu.regs.b, 0x00);
    // The handler, its return, and one more instruction.
    for _ in 0..3 {
        assert_eq!(cpu.tick(), Ok(false));
    }
    assert_eq!(cpu.regs.b, 0xAB);
    assert!(cpu.interrupts_enabled);
    assert_eq!(cpu.regs.pc, 0x0105);
    assert_eq!(cpu.regs.sp, 0xFFFE);
    assert_eq!(cpu.mem.ioregs.iflag & 0x01, 0x00);
    // After one more frame the handler has run again.
    cpu.regs.b = 0;
    assert_eq!(cpu.run(1_000_000), Ok(true));
    for _ in 0..3 {
        assert_eq!(cpu.tick(), Ok(false));
    }
    assert_eq!(cpu.regs.b, 0xAB);
    assert!(cpu.interrupts_enabled);
}

#[test]
fn the_serial_port_is_recorded_by_a_program() {
    // LD A,'O'; LDH (0x01),A; LD A,0x81; LDH (0x02),A; LD A,'K'; LDH (0x01),A;
    // LD A,0x81; LDH (0x02),A
    let mut cpu = machine(&[
        0x3E, b'O', 0xE0, 0x01, 0x3E, 0x81, 0xE0, 0x02, 0x3E, b'K', 0xE0, 0x01, 0x3E, 0x81,
        0xE0, 0x02,
    ]);
    for _ in 0..8 {
        step(&mut cpu);
    }
    assert_eq!(cpu.mem.serial, b"OK".to_vec());
}

#[test]
fn the_sound_engine_follows_the_processor() {
    let mut cpu = machine(&[0x18, 0xFE]);
    for _ in 0..100 {
        step(&mut cpu);
    }
    assert_eq!(cpu.mem.sound.last_cycle, 1200);
    assert_eq!(cpu.mem.sound.sample_pointer, 2 * (1200 * 48000 / 4194304));
}

#[test]
fn a_built_machine_is_valid() {
    let mut cpu = machine(&[0x00, 0xC3, 0x00, 0x01]);
    assert!(cpu.is_valid());
    for _ in 0..5000 {
        assert!(cpu.tick().is_ok());
    }
    assert!(cpu.is_valid());
    assert!(cpu.regs.is_valid());
    assert!(cpu.mem.is_valid());
    assert!(cpu.mem.rom.is_valid());
    assert!(cpu.mem.gpu.is_valid());
    assert!(cpu.mem.gpu.is_on_schedule());
    assert!(cpu.mem.sound.is_valid());
}

#[test]
fn a_damaged_machine_is_not_valid() {
    let mut cpu = machine(&[]);
    cpu.regs.f = 0x01;
    assert!(!cpu.is_valid());
    let mut cpu = machine(&[]);
    cpu.mem.ram.pop();
    assert!(!cpu.is_valid());
    let mut cpu = machine(&[]);
    cpu.mem.high_ram.push(0);
    assert!(!cpu.is_valid());
    let mut cpu = machine(&[]);
    cpu.mem.gpu.vram.clear();
    assert!(!cpu.is_valid());
    let mut cpu = machine(&[]);
    cpu.mem.gpu.current_line = 154;
    assert!(!cpu.is_valid());
    let mut cpu = machine(&[]);
    cpu.mem.gpu.mode = GPUMode::Hblank;
    assert!(!cpu.is_valid());
    let mut cpu = machine(&[]);
    cpu.mem.gpu.internal_clock = 456;
    assert!(!cpu.is_valid());
    let mut cpu = machine(&[]);
    cpu.mem.gpu.current_line = 10;
    assert!(!cpu.is_valid());
    let mut cpu = machine(&[]);
    cpu.mem.rom.current_bank = 0;
    assert!(!cpu.is_valid());
    let mut cpu = machine(&[]);
    cpu.mem.rom.current_bank = 2;
    assert!(!cpu.is_valid());
    let mut cpu = machine(&[]);
    cpu.mem.rom.cart_ram.push(0);
    assert!(!cpu.is_valid());
    let mut cpu = machine(&[]);
    cpu.mem.sound.samples.pop();
    assert!(!cpu.is_valid());
    let mut cpu = machine(&[]);
    cpu.interrupts_countdown = 2;
    assert!(!cpu.is_valid());
    let mut cpu = machine(&[]);
    cpu.timer_counter = 1025;
    assert!(!cpu.is_valid());
}

#[test]
fn the_machine_is_built_from_an_image() {
    let mut data = vec![0u8; 0x8000];
    data[0x100] = 0x3C;
    let mut cpu = oxidgb_core::cpu::cpu::build_from_rom(data);
    assert!(cpu.is_valid());
    assert_eq!(cpu.regs.pc, 0x0100);
    assert_eq!(cpu.mem.read(0xFF40), 0x91);
    assert_eq!(cpu.tick(), Ok(false));
    assert_eq!(cpu.regs.a, 0x02);
    assert!(oxidgb_core::cpu::cpu::build_from_rom(vec![0u8; 0x14A]).is_valid());
}

#[test]
fn the_status_interrupt_of_the_vertical_blank() {
    let mut cpu = machine(&[0x18, 0xFE]);
    cpu.interrupts_enabled = false;
    cpu.mem.write(0xFF41, 0x10);
    assert_eq!(cpu.run(1_000_000), Ok(true));
    assert_eq!(cpu.mem.ioregs.iflag, 0x03);
    // Without bit 4 of STAT only the vertical blank is raised.
    let mut cpu = machine(&[0x18, 0xFE]);
    cpu.interrupts_enabled = false;
    cpu.mem.write(0xFF41, 0x00);
    assert_eq!(cpu.run(1_000_000), Ok(true));
    assert_eq!(cpu.mem.ioregs.iflag, 0x01);
}

#[test]
fn the_coincidence_interrupt_of_line_144() {
    let mut cpu = machine(&[0x18, 0xFE]);
    cpu.interrupts_enabled = false;
    cpu.mem.write(0xFF41, 0x40);
    cpu.mem.write(0xFF45, 144);
    assert_eq!(cpu.run(1_000_000), Ok(true));
    assert_eq!(cpu.mem.gpu.current_line, 144);
    assert_eq!(cpu.mem.ioregs.iflag, 0x03);
    // With LYC on another line only the vertical blank is raised.
    let mut cpu = machine(&[0x18, 0xFE]);
    cpu.interrupts_enabled = false;
    cpu.mem.write(0xFF41, 0x40);
    cpu.mem.write(0xFF45, 145);
    assert_eq!(cpu.run(1_000_000), Ok(true));
    assert_eq!(cpu.mem.ioregs.iflag, 0x01);
}

#[test]
fn a_disabled_screen_takes_any_number_of_cycles() {
    let mut cpu = machine(&[]);
    cpu.mem.write(0xFF40, 0x11);
    cpu.mem.gpu.internal_clock = 455;
    assert_eq!(cpu.mem.gpu.step(u32::MAX), None);
    assert_eq!(cpu.mem.gpu.internal_clock, 455);
    assert_eq!(cpu.mem.gpu.current_line, 0);
    assert_eq!(cpu.mem.gpu.mode, GPUMode::Vblank);
}

#[test]
fn a_routine_loads_b_and_returns() {
    // The timer's routine at 0x50: LD B,0x5C; RETI. At 0x100: NOP; NOP.
    let mut data = vec![0u8; 0x8000];
    data[0x50] = 0x06;
    data[0x51] = 0x5C;
    data[0x52] = 0xD9;
    let mut cpu = oxidgb_core::cpu::cpu::build_from_rom(data);
    cpu.mem.write(0xFFFF, 0x04);
    cpu.throw_interrupt(InterruptType::TIMER);
    assert_eq!(cpu.tick(), Ok(false));
    assert_eq!(cpu.regs.b, 0x5C);
    assert_eq!(cpu.regs.pc, 0x0052);
    assert_eq!(cpu.regs.sp, 0xFFFC);
    assert!(!cpu.interrupts_enabled);
    assert_eq!(cpu.tick(), Ok(false));
    assert_eq!(cpu.regs.pc, 0x0100);
    assert_eq!(cpu.regs.sp, 0xFFFE);
    assert_eq!(cpu.regs.b, 0x5C);
    assert!(!cpu.interrupts_enabled);
    assert_eq!(cpu.tick(), Ok(false));
    assert!(cpu.interrupts_enabled);
    assert_eq!(cpu.regs.b, 0x5C);
    assert_eq!(cpu.regs.pc, 0x0101);
}
