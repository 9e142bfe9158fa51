use phpboy_core::bus::Bus;
use phpboy_core::cpu::{Cpu, FLAG_C, FLAG_H, FLAG_N, FLAG_Z};

/// A ROM-only image with `program` at 0x0100.
fn bus_with_program(program: &[u8]) -> Bus {
    let mut rom = vec![0u8; 0x8000];
    rom[0x100..0x100 + program.len()].copy_from_slice(program);
    let mut bus = Bus::new();
    bus.load_rom(&rom).unwrap();
    bus
}

#[test]
fn test_cpu_init() {
    let cpu = Cpu::new();
    assert_eq!(cpu.registers().pc, 0x0100);
    assert_eq!(cpu.registers().sp, 0xFFFE);
}

#[test]
fn test_inc() {
    let mut cpu = Cpu::new();
    let result = cpu.inc(0x00);
    assert_eq!(result, 0x01);
    assert_eq!(cpu.registers().f & FLAG_Z, 0);

    let result = cpu.inc(0xFF);
    assert_eq!(result, 0x00);
    assert_ne!(cpu.registers().f & FLAG_Z, 0);
}

#[test]
fn inc_then_dec_gives_back_every_byte() {
    let mut cpu = Cpu::new();
    for v in 0u8..=255 {
        let up = cpu.inc(v);
        let f = cpu.registers().f;
        assert_eq!(f & 0x0F, 0);
        assert_eq!(f & FLAG_N, 0);
        assert_eq!(f & FLAG_Z != 0, up == 0);
        assert_eq!(f & FLAG_H != 0, v & 0x0F == 0x0F);
        let down = cpu.dec(up);
        assert_eq!(down, v);
        let f = cpu.registers().f;
        assert_ne!(f & FLAG_N, 0);
        assert_eq!(f & FLAG_Z != 0, v == 0);
        assert_eq!(f & FLAG_H != 0, up & 0x0F == 0);
    }
}

#[test]
fn inc_boundaries_and_carry_kept() {
    let mut cpu = Cpu::new();
    // power-on F is 0xB0: carry set
    assert_eq!(cpu.inc(0x0F), 0x10);
    assert_eq!(cpu.registers().f, FLAG_H | FLAG_C);
    assert_eq!(cpu.inc(0xFF), 0x00);
    assert_eq!(cpu.registers().f, FLAG_Z | FLAG_H | FLAG_C);
    assert_eq!(cpu.dec(0x01), 0x00);
    assert_eq!(cpu.registers().f, FLAG_Z | FLAG_N | FLAG_C);
    assert_eq!(cpu.dec(0x00), 0xFF);
    assert_eq!(cpu.registers().f, FLAG_N | FLAG_H | FLAG_C);
}

#[test]
fn loads_increments_and_halt() {
    // LD B,0x42; INC B; DEC C; LD HL,0xC000; LD (HL),0x99; LD A,(HL); HALT
    let mut bus = bus_with_program(&[0x06, 0x42, 0x04, 0x0D, 0x21, 0x00, 0xC0, 0x36, 0x99, 0x7E, 0x76]);
    let mut cpu = Cpu::new();
    assert_eq!(cpu.step(&mut bus), 8);
    assert_eq!(cpu.registers().b, 0x42);
    assert_eq!(cpu.step(&mut bus), 4);
    assert_eq!(cpu.registers().b, 0x43);
    assert_eq!(cpu.step(&mut bus), 4);
    assert_eq!(cpu.registers().c, 0x12);
    assert_eq!(cpu.step(&mut bus), 12);
    assert_eq!((cpu.registers().h, cpu.registers().l), (0xC0, 0x00));
    assert_eq!(cpu.step(&mut bus), 12);
    assert_eq!(bus.read(0xC000), 0x99);
    assert_eq!(cpu.step(&mut bus), 8);
    assert_eq!(cpu.registers().a, 0x99);
    assert_eq!(cpu.step(&mut bus), 4);
    assert!(cpu.halted());
    let pc = cpu.registers().pc;
    assert_eq!(cpu.step(&mut bus), 4);
    assert_eq!(cpu.registers().pc, pc);
}

#[test]
fn rlca_rotates_through_carry() {
    // LD A,0x85; RLCA; RLCA
    let mut bus = bus_with_program(&[0x3E, 0x85, 0x07, 0x07]);
    let mut cpu = Cpu::new();
    cpu.step(&mut bus);
    assert_eq!(cpu.step(&mut bus), 4);
    assert_eq!(cpu.registers().a, 0x0B);
    assert_eq!(cpu.registers().f, FLAG_C);
    cpu.step(&mut bus);
    assert_eq!(cpu.registers().a, 0x16);
    assert_eq!(cpu.registers().f, 0);
}

#[test]
fn register_pairs_wrap() {
    // INC BC with BC = 0x0013; DEC DE with DE = 0x00D8; LD SP,0xFFFF; INC SP
    let mut bus = bus_with_program(&[0x03, 0x1B, 0x31, 0xFF, 0xFF, 0x33]);
    let mut cpu = Cpu::new();
    assert_eq!(cpu.step(&mut bus), 8);
    assert_eq!((cpu.registers().b, cpu.registers().c), (0x00, 0x14));
    assert_eq!(cpu.step(&mut bus), 8);
    assert_eq!((cpu.registers().d, cpu.registers().e), (0x00, 0xD7));
    assert_eq!(cpu.step(&mut bus), 12);
    assert_eq!(cpu.step(&mut bus), 8);
    assert_eq!(cpu.registers().sp, 0x0000);
}

#[test]
fn jump_and_undefined_opcodes() {
    // JP 0x0150; at 0x0150: 0xD3 (undefined)
    let mut rom_prog = vec![0u8; 0x60];
    rom_prog[0..3].copy_from_slice(&[0xC3, 0x50, 0x01]);
    rom_prog[0x50] = 0xD3;
    let mut bus = bus_with_program(&rom_prog);
    let mut cpu = Cpu::new();
    assert_eq!(cpu.step(&mut bus), 16);
    assert_eq!(cpu.registers().pc, 0x0150);
    let before = cpu.registers();
    assert_eq!(cpu.step(&mut bus), 4);
    let after = cpu.registers();
    assert_eq!(after.pc, 0x0151);
    assert_eq!((after.a, after.f, after.b, after.sp), (before.a, before.f, before.b, before.sp));
}

#[test]
fn enabled_interrupt_is_serviced() {
    // EI; NOP
    let mut bus = bus_with_program(&[0xFB, 0x00]);
    let mut cpu = Cpu::new();
    assert_eq!(cpu.step(&mut bus), 4);
    assert!(cpu.ime());
    bus.write(0xFFFF, 0x05);
    bus.write(0xFF0F, 0x04);
    assert_eq!(cpu.step(&mut bus), 20);
    assert_eq!(cpu.registers().pc, 0x0050);
    assert_eq!(cpu.registers().sp, 0xFFFC);
    assert!(!cpu.ime());
    assert_eq!(bus.read(0xFFFD), 0x01);
    assert_eq!(bus.read(0xFFFC), 0x01);
    assert_eq!(bus.read(0xFF0F), 0x00);
}

#[test]
fn halt_wakes_on_pending_interrupt_with_ime_off() {
    // HALT; LD B,0x07
    let mut bus = bus_with_program(&[0x76, 0x06, 0x07]);
    let mut cpu = Cpu::new();
    cpu.step(&mut bus);
    assert!(cpu.halted());
    assert_eq!(cpu.step(&mut bus), 4);
    assert!(cpu.halted());
    bus.write(0xFFFF, 0x01);
    bus.write(0xFF0F, 0x01);
    assert_eq!(cpu.step(&mut bus), 8);
    assert!(!cpu.halted());
    assert_eq!(cpu.registers().b, 0x07);
}

#[test]
fn reset_restores_power_on_registers() {
    let mut bus = bus_with_program(&[0x06, 0x00, 0xFB]);
    let mut cpu = Cpu::new();
    cpu.step(&mut bus);
    cpu.step(&mut bus);
    cpu.reset();
    let r = cpu.registers();
    assert_eq!((r.a, r.f, r.b, r.c, r.d, r.e, r.h, r.l), (0x01, 0xB0, 0x00, 0x13, 0x00, 0xD8, 0x01, 0x4D));
    assert_eq!((r.sp, r.pc), (0xFFFE, 0x0100));
    assert!(!cpu.ime());
}

#[test]
fn alu_flags_at_carry_boundaries() {
    let mut bus = bus_with_program(&[
        0x3E, 0x3A, // LD A,0x3A
        0xC6, 0xC6, // ADD A,0xC6   -> 0x00, Z H C
        0xD6, 0x01, // SUB 0x01     -> 0xFF, N H C
        0xCE, 0x00, // ADC A,0x00   -> 0x00, Z H C
        0xFE, 0x00, // CP 0x00      -> A kept, Z N
        0xAF,       // XOR A        -> 0x00, Z
        0x06, 0x05, // LD B,5
        0xB0,       // OR B         -> 0x05
        0xE6, 0x04, // AND 0x04     -> 0x04, H
        0xD6, 0x05, // SUB 0x05     -> 0xFF, N H C
        0xDE, 0x0F, // SBC A,0x0F   -> 0xEF, N H
        0x80,       // ADD A,B      -> 0xF4, H
    ]);
    let mut cpu = Cpu::new();
    cpu.step(&mut bus);
    let expect = [
        (8, 0x00, 0xB0),
        (8, 0xFF, 0x70),
        (8, 0x00, 0xB0),
        (8, 0x00, 0xC0),
        (4, 0x00, 0x80),
    ];
    for (cycles, a, f) in expect {
        assert_eq!(cpu.step(&mut bus), cycles);
        assert_eq!((cpu.registers().a, cpu.registers().f), (a, f));
    }
    cpu.step(&mut bus);
    assert_eq!(cpu.step(&mut bus), 4);
    assert_eq!((cpu.registers().a, cpu.registers().f), (0x05, 0x00));
    assert_eq!(cpu.step(&mut bus), 8);
    assert_eq!((cpu.registers().a, cpu.registers().f), (0x04, 0x20));
    cpu.step(&mut bus);
    assert_eq!((cpu.registers().a, cpu.registers().f), (0xFF, 0x70));
    cpu.step(&mut bus);
    assert_eq!((cpu.registers().a, cpu.registers().f), (0xEF, 0x60));
    assert_eq!(cpu.step(&mut bus), 4);
    assert_eq!((cpu.registers().a, cpu.registers().f), (0xF4, 0x20));
}

#[test]
fn push_pop_and_flag_nibble() {
    let mut bus = bus_with_program(&[
        0x31, 0x00, 0xD0, // LD SP,0xD000
        0x01, 0x34, 0x12, // LD BC,0x1234
        0xC5,             // PUSH BC
        0xD1,             // POP DE
        0x01, 0xFF, 0x12, // LD BC,0x12FF
        0xC5,             // PUSH BC
        0xF1,             // POP AF
    ]);
    let mut cpu = Cpu::new();
    cpu.step(&mut bus);
    cpu.step(&mut bus);
    assert_eq!(cpu.step(&mut bus), 16);
    assert_eq!(cpu.registers().sp, 0xCFFE);
    assert_eq!((bus.read(0xCFFF), bus.read(0xCFFE)), (0x12, 0x34));
    assert_eq!(cpu.step(&mut bus), 12);
    assert_eq!((cpu.registers().d, cpu.registers().e, cpu.registers().sp), (0x12, 0x34, 0xD000));
    cpu.step(&mut bus);
    cpu.step(&mut bus);
    cpu.step(&mut bus);
    assert_eq!((cpu.registers().a, cpu.registers().f), (0x12, 0xF0));
}

#[test]
fn call_ret_and_relative_jumps() {
    let mut prog = vec![0u8; 0x120];
    prog[0..3].copy_from_slice(&[0xCD, 0x00, 0x02]); // CALL 0x0200
    prog[3..5].copy_from_slice(&[0x20, 0x05]); // JR NZ,+5 (Z set: not taken)
    prog[5..7].copy_from_slice(&[0x18, 0x02]); // JR +2
    prog[9..11].copy_from_slice(&[0x28, 0xF7]); // JR Z,-9 -> 0x0102
    prog[0x100] = 0xC9; // RET at 0x0200
    let mut bus = bus_with_program(&prog);
    let mut cpu = Cpu::new();
    assert_eq!(cpu.step(&mut bus), 24);
    assert_eq!((cpu.registers().pc, cpu.registers().sp), (0x0200, 0xFFFC));
    assert_eq!((bus.read(0xFFFD), bus.read(0xFFFC)), (0x01, 0x03));
    assert_eq!(cpu.step(&mut bus), 16);
    assert_eq!((cpu.registers().pc, cpu.registers().sp), (0x0103, 0xFFFE));
    assert_eq!(cpu.step(&mut bus), 8);
    assert_eq!(cpu.registers().pc, 0x0105);
    assert_eq!(cpu.step(&mut bus), 12);
    assert_eq!(cpu.registers().pc, 0x0109);
    assert_eq!(cpu.step(&mut bus), 12);
    assert_eq!(cpu.registers().pc, 0x0102);
}

#[test]
fn high_page_and_hl_step_loads() {
    let mut bus = bus_with_program(&[
        0x3E, 0x77, // LD A,0x77
        0xE0, 0x80, // LDH (0x80),A
        0x3E, 0x00, // LD A,0
        0xF0, 0x80, // LDH A,(0x80)
        0x21, 0x00, 0xC0, // LD HL,0xC000
        0x22,       // LD (HL+),A
        0x3A,       // LD A,(HL-)
    ]);
    let mut cpu = Cpu::new();
    cpu.step(&mut bus);
    assert_eq!(cpu.step(&mut bus), 12);
    assert_eq!(bus.read(0xFF80), 0x77);
    cpu.step(&mut bus);
    assert_eq!(cpu.step(&mut bus), 12);
    assert_eq!(cpu.registers().a, 0x77);
    cpu.step(&mut bus);
    assert_eq!(cpu.step(&mut bus), 8);
    assert_eq!(bus.read(0xC000), 0x77);
    assert_eq!((cpu.registers().h, cpu.registers().l), (0xC0, 0x01));
    assert_eq!(cpu.step(&mut bus), 8);
    assert_eq!(cpu.registers().a, 0x00);
    assert_eq!((cpu.registers().h, cpu.registers().l), (0xC0, 0x00));
}

#[test]
fn rotates_and_carry_flag_ops() {
    let mut bus = bus_with_program(&[
        0x3E, 0x01, // LD A,0x01
        0x0F,       // RRCA -> 0x80, C
        0x17,       // RLA  -> 0x01 (carry in), C
        0x1F,       // RRA  -> 0x80 (carry in), C
        0x2F,       // CPL  -> 0x7F, N H kept C
        0x3F,       // CCF  -> C cleared
        0x37,       // SCF  -> C set
    ]);
    let mut cpu = Cpu::new();
    cpu.step(&mut bus);
    let expect = [(0x80u8, FLAG_C), (0x01, FLAG_C), (0x80, FLAG_C), (0x7F, FLAG_C | FLAG_N | FLAG_H), (0x7F, 0), (0x7F, FLAG_C)];
    for (a, f) in expect {
        assert_eq!(cpu.step(&mut bus), 4);
        assert_eq!((cpu.registers().a, cpu.registers().f), (a, f));
    }
}

#[test]
fn add_hl_sets_carry_from_bits_11_and_15() {
    let mut bus = bus_with_program(&[
        0x21, 0xFF, 0x8F, // LD HL,0x8FFF
        0x01, 0x01, 0x70, // LD BC,0x7001
        0x09,             // ADD HL,BC -> 0x0000, H C, Z kept
        0xF9,             // LD SP,HL
        0xE9,             // JP (HL)
    ]);
    let mut cpu = Cpu::new();
    cpu.step(&mut bus);
    cpu.step(&mut bus);
    assert_eq!(cpu.step(&mut bus), 8);
    assert_eq!((cpu.registers().h, cpu.registers().l), (0x00, 0x00));
    assert_eq!(cpu.registers().f, FLAG_Z | FLAG_H | FLAG_C);
    assert_eq!(cpu.step(&mut bus), 8);
    assert_eq!(cpu.registers().sp, 0x0000);
    assert_eq!(cpu.step(&mut bus), 4);
    assert_eq!(cpu.registers().pc, 0x0000);
}

#[test]
fn loads_through_c_and_absolute_address() {
    let mut bus = bus_with_program(&[
        0x0E, 0x81,       // LD C,0x81
        0x3E, 0x5A,       // LD A,0x5A
        0xE2,             // LD (C),A -> 0xFF81
        0xEA, 0x00, 0xC1, // LD (0xC100),A
        0x3E, 0x00,       // LD A,0
        0xF2,             // LD A,(C)
        0xFA, 0x00, 0xC1, // LD A,(0xC100)
    ]);
    let mut cpu = Cpu::new();
    cpu.step(&mut bus);
    cpu.step(&mut bus);
    assert_eq!(cpu.step(&mut bus), 8);
    assert_eq!(bus.read(0xFF81), 0x5A);
    assert_eq!(cpu.step(&mut bus), 16);
    assert_eq!(bus.read(0xC100), 0x5A);
    cpu.step(&mut bus);
    assert_eq!(cpu.step(&mut bus), 8);
    assert_eq!(cpu.registers().a, 0x5A);
    assert_eq!(cpu.step(&mut bus), 16);
    assert_eq!(cpu.registers().pc, 0x010E);
}

#[test]
fn conditional_branches_rst_and_reti() {
    // power-on flags: Z and C set
    let mut prog = vec![0u8; 0x140];
    prog[0..3].copy_from_slice(&[0xC2, 0x00, 0x02]); // JP NZ (not taken)
    prog[3..6].copy_from_slice(&[0xD4, 0x00, 0x02]); // CALL NC (not taken)
    prog[6] = 0xC0; // RET NZ (not taken)
    prog[7..10].copy_from_slice(&[0xCC, 0x20, 0x01]); // CALL Z,0x0120 (taken)
    prog[0x20] = 0xD8; // RET C (taken) at 0x0120
    prog[10] = 0xFF; // RST 0x38 at 0x010A
    let mut bus = bus_with_program(&prog);
    let mut cpu = Cpu::new();
    assert_eq!(cpu.step(&mut bus), 12);
    assert_eq!(cpu.registers().pc, 0x0103);
    assert_eq!(cpu.step(&mut bus), 12);
    assert_eq!(cpu.registers().pc, 0x0106);
    assert_eq!(cpu.step(&mut bus), 8);
    assert_eq!(cpu.registers().pc, 0x0107);
    assert_eq!(cpu.step(&mut bus), 24);
    assert_eq!((cpu.registers().pc, cpu.registers().sp), (0x0120, 0xFFFC));
    assert_eq!(cpu.step(&mut bus), 20);
    assert_eq!((cpu.registers().pc, cpu.registers().sp), (0x010A, 0xFFFE));
    assert_eq!(cpu.step(&mut bus), 16);
    assert_eq!((cpu.registers().pc, cpu.registers().sp), (0x0038, 0xFFFC));
    assert_eq!((bus.read(0xFFFD), bus.read(0xFFFC)), (0x01, 0x0B));
}

#[test]
fn reti_returns_and_enables_interrupts() {
    let mut prog = vec![0u8; 0x40];
    prog[0..3].copy_from_slice(&[0xCD, 0x30, 0x01]); // CALL 0x0130
    prog[0x30] = 0xD9; // RETI
    let mut bus = bus_with_program(&prog);
    let mut cpu = Cpu::new();
    cpu.step(&mut bus);
    assert!(!cpu.ime());
    assert_eq!(cpu.step(&mut bus), 16);
    assert_eq!(cpu.registers().pc, 0x0103);
    assert!(cpu.ime());
}

#[test]
fn prefixed_table_on_registers_and_hl() {
    let mut bus = bus_with_program(&[
        0x06, 0x81,       // LD B,0x81
        0xCB, 0x00,       // RLC B      -> 0x03, C
        0xCB, 0x37,       // SWAP A     -> 0x10
        0xCB, 0x7F,       // BIT 7,A    -> Z H
        0xCB, 0xC7,       // SET 0,A    -> 0x11
        0xCB, 0x87,       // RES 0,A    -> 0x10
        0xCB, 0x2F,       // SRA A      -> 0x08
        0x21, 0x00, 0xC0, // LD HL,0xC000
        0x36, 0x81,       // LD (HL),0x81
        0xCB, 0x3E,       // SRL (HL)   -> 0x40, C
        0xCB, 0x46,       // BIT 0,(HL) -> Z H, C kept
    ]);
    let mut cpu = Cpu::new();
    cpu.step(&mut bus);
    assert_eq!(cpu.step(&mut bus), 8);
    assert_eq!((cpu.registers().b, cpu.registers().f), (0x03, FLAG_C));
    assert_eq!(cpu.step(&mut bus), 8);
    assert_eq!((cpu.registers().a, cpu.registers().f), (0x10, 0));
    assert_eq!(cpu.step(&mut bus), 8);
    assert_eq!((cpu.registers().a, cpu.registers().f), (0x10, FLAG_Z | FLAG_H));
    cpu.step(&mut bus);
    assert_eq!((cpu.registers().a, cpu.registers().f), (0x11, FLAG_Z | FLAG_H));
    cpu.step(&mut bus);
    assert_eq!(cpu.registers().a, 0x10);
    cpu.step(&mut bus);
    assert_eq!((cpu.registers().a, cpu.registers().f), (0x08, 0));
    cpu.step(&mut bus);
    cpu.step(&mut bus);
    assert_eq!(cpu.step(&mut bus), 16);
    assert_eq!((bus.read(0xC000), cpu.registers().f), (0x40, FLAG_C));
    assert_eq!(cpu.step(&mut bus), 12);
    assert_eq!(cpu.registers().f, FLAG_Z | FLAG_H | FLAG_C);
    assert_eq!(cpu.registers().pc, 0x0117);
}

#[test]
fn stack_pointer_arithmetic_and_store() {
    let mut bus = bus_with_program(&[
        0x31, 0xF8, 0xFF, // LD SP,0xFFF8
        0x08, 0x00, 0xC0, // LD (0xC000),SP
        0xE8, 0x02,       // ADD SP,2
        0xF8, 0xFE,       // LD HL,SP-2
    ]);
    let mut cpu = Cpu::new();
    cpu.step(&mut bus);
    assert_eq!(cpu.step(&mut bus), 20);
    assert_eq!((bus.read(0xC000), bus.read(0xC001)), (0xF8, 0xFF));
    assert_eq!(cpu.step(&mut bus), 16);
    assert_eq!((cpu.registers().sp, cpu.registers().f), (0xFFFA, 0));
    assert_eq!(cpu.step(&mut bus), 12);
    assert_eq!((cpu.registers().h, cpu.registers().l), (0xFF, 0xF8));
    assert_eq!(cpu.registers().f, FLAG_H | FLAG_C);
    assert_eq!(cpu.registers().sp, 0xFFFA);
}

#[test]
fn decimal_adjust_after_add_and_sub() {
    let mut bus = bus_with_program(&[
        0x3E, 0x45, // LD A,0x45
        0xC6, 0x38, // ADD A,0x38 -> 0x7D
        0x27,       // DAA        -> 0x83
        0xD6, 0x04, // SUB 0x04   -> 0x7F, N H
        0x27,       // DAA        -> 0x79
    ]);
    let mut cpu = Cpu::new();
    cpu.step(&mut bus);
    cpu.step(&mut bus);
    assert_eq!(cpu.step(&mut bus), 4);
    assert_eq!((cpu.registers().a, cpu.registers().f), (0x83, 0));
    cpu.step(&mut bus);
    cpu.step(&mut bus);
    assert_eq!((cpu.registers().a, cpu.registers().f), (0x79, FLAG_N));
}
