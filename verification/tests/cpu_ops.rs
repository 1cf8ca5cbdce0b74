//! Instruction-level scenarios: flag semantics, cycle counts, stack and
//! control-flow round trips.

use dmg_core::cart::Cart;
use dmg_core::cpu::CPU;
use dmg_core::joypad::Joypad;
use dmg_core::mmu::MMU;

fn blank_rom() -> Vec<u8> {
    // 32 KiB, ROM size code 0, RAM size code 0: a valid header.
    vec![0u8; 0x8000]
}

fn machine(rom: Vec<u8>) -> (CPU, MMU) {
    let cart = Cart::from_rom(rom).unwrap();
    let mmu = MMU::new(cart, Joypad::new());
    (CPU::new(), mmu)
}

#[test]
fn adc_half_carry_at_boundary() {
    // A=0x0F, C=1, then ADC A,B with B=0: A=0x10, Z=0 N=0 H=1 C=0.
    let (mut cpu, mut mmu) = machine(blank_rom());
    cpu.a = 0x0F;
    cpu.f = 0x10;
    cpu.b = 0x00;
    let cycles = cpu.execute(&mut mmu, 0x88);
    assert_eq!(cycles, 4);
    assert_eq!(cpu.a, 0x10);
    assert_eq!(cpu.f, 0x20);
}

#[test]
fn daa_after_bcd_addition() {
    // A=0x45 plus 0x38 gives 0x7D; DAA adjusts the low digit to 0x83
    // with Z=0, H=0, C=0.
    let (mut cpu, mut mmu) = machine(blank_rom());
    cpu.a = 0x45;
    cpu.f = 0x00;
    cpu.b = 0x38;
    cpu.execute(&mut mmu, 0x80);
    assert_eq!(cpu.a, 0x7D);
    let cycles = cpu.execute(&mut mmu, 0x27);
    assert_eq!(cycles, 4);
    assert_eq!(cpu.a, 0x83);
    assert_eq!(cpu.f & 0x80, 0); // Z
    assert_eq!(cpu.f & 0x20, 0); // H
    assert_eq!(cpu.f & 0x10, 0); // C
}

#[test]
fn add_sp_e8_flags() {
    // SP=0xFFF8, ADD SP,0x02: SP=0xFFFA with all flags clear.
    let mut rom = blank_rom();
    rom[0x101] = 0x02;
    let (mut cpu, mut mmu) = machine(rom);
    cpu.sp = 0xFFF8;
    let cycles = cpu.execute(&mut mmu, 0xE8);
    assert_eq!(cycles, 16);
    assert_eq!(cpu.sp, 0xFFFA);
    assert_eq!(cpu.f, 0x00);
}

#[test]
fn add_sp_e8_low_nibble_half_carry() {
    // SP=0x000F, ADD SP,0x01: SP=0x0010 with H=1 and C=0.
    let mut rom = blank_rom();
    rom[0x101] = 0x01;
    let (mut cpu, mut mmu) = machine(rom);
    cpu.sp = 0x000F;
    cpu.execute(&mut mmu, 0xE8);
    assert_eq!(cpu.sp, 0x0010);
    assert_eq!(cpu.f, 0x20);
}

#[test]
fn jr_taken_and_not_taken_cycles() {
    // With Z set, JR Z,+5 takes 12 cycles and lands 2+5 past the opcode;
    // with Z clear it takes 8 and falls through.
    let mut rom = blank_rom();
    rom[0x201] = 0x05;
    let (mut cpu, mut mmu) = machine(rom);
    cpu.b = 0xFF;
    cpu.execute(&mut mmu, 0x04); // INC B wraps to 0, setting Z
    assert_eq!(cpu.f & 0x80, 0x80);
    cpu.pc = 0x200;
    let taken = cpu.execute(&mut mmu, 0x28);
    assert_eq!(taken, 12);
    assert_eq!(cpu.pc, 0x207);

    cpu.f = 0x00;
    cpu.pc = 0x200;
    let skipped = cpu.execute(&mut mmu, 0x28);
    assert_eq!(skipped, 8);
    assert_eq!(cpu.pc, 0x202);
}

#[test]
fn push_pop_restores_pair_and_sp() {
    let (mut cpu, mut mmu) = machine(blank_rom());
    cpu.sp = 0xD000;
    cpu.b = 0x12;
    cpu.c = 0x34;
    let push_cycles = cpu.execute(&mut mmu, 0xC5);
    assert_eq!(push_cycles, 16);
    assert_eq!(cpu.sp, 0xCFFE);
    cpu.b = 0;
    cpu.c = 0;
    let pop_cycles = cpu.execute(&mut mmu, 0xC1);
    assert_eq!(pop_cycles, 12);
    assert_eq!(cpu.b, 0x12);
    assert_eq!(cpu.c, 0x34);
    assert_eq!(cpu.sp, 0xD000);
}

#[test]
fn pop_af_masks_low_nibble() {
    let (mut cpu, mut mmu) = machine(blank_rom());
    mmu.write_byte(0xCFFE, 0xFF);
    mmu.write_byte(0xCFFF, 0x12);
    cpu.sp = 0xCFFE;
    cpu.execute(&mut mmu, 0xF1);
    assert_eq!(cpu.a, 0x12);
    assert_eq!(cpu.f, 0xF0);
}

#[test]
fn call_then_ret_round_trip() {
    // CALL 0x1234 from 0x150 pushes 0x153; RET returns there with SP
    // restored.
    let mut rom = blank_rom();
    rom[0x151] = 0x34;
    rom[0x152] = 0x12;
    let (mut cpu, mut mmu) = machine(rom);
    cpu.pc = 0x150;
    cpu.sp = 0xD000;
    let call_cycles = cpu.execute(&mut mmu, 0xCD);
    assert_eq!(call_cycles, 24);
    assert_eq!(cpu.pc, 0x1234);
    assert_eq!(cpu.sp, 0xCFFE);
    assert_eq!(mmu.read_byte(0xCFFE), 0x53);
    assert_eq!(mmu.read_byte(0xCFFF), 0x01);
    let ret_cycles = cpu.execute(&mut mmu, 0xC9);
    assert_eq!(ret_cycles, 16);
    assert_eq!(cpu.pc, 0x153);
    assert_eq!(cpu.sp, 0xD000);
}

#[test]
fn halt_exits_within_one_step_when_pending() {
    // HALT with IME off but IE & IF != 0 wakes on the next step.
    let (mut cpu, mut mmu) = machine(blank_rom());
    cpu.execute(&mut mmu, 0x76);
    assert!(cpu.halted);
    mmu.write_byte(0xFFFF, 0x01);
    mmu.write_byte(0xFF0F, 0x01);
    cpu.ime = false;
    let cycles = cpu.execute(&mut mmu, 0x00);
    assert_eq!(cycles, 4);
    assert!(!cpu.halted);
}

#[test]
fn halt_persists_without_pending_interrupt() {
    let (mut cpu, mut mmu) = machine(blank_rom());
    cpu.execute(&mut mmu, 0x76);
    let cycles = cpu.execute(&mut mmu, 0x00);
    assert_eq!(cycles, 4);
    assert!(cpu.halted);
}

#[test]
fn cycle_table_spot_checks() {
    let (mut cpu, mut mmu) = machine(blank_rom());
    assert_eq!(cpu.execute(&mut mmu, 0x00), 4); // NOP
    cpu.h = 0xC0;
    cpu.l = 0x00;
    assert_eq!(cpu.execute(&mut mmu, 0x7E), 8); // LD A,(HL)
    assert_eq!(cpu.execute(&mut mmu, 0xC3), 16); // JP a16
    cpu.sp = 0xD000;
    cpu.f = 0x00;
    assert_eq!(cpu.execute(&mut mmu, 0xC4), 24); // CALL NZ taken
    cpu.f = 0x80;
    assert_eq!(cpu.execute(&mut mmu, 0xC4), 12); // CALL NZ not taken
    assert_eq!(cpu.execute(&mut mmu, 0xC8), 20); // RET Z taken
    cpu.f = 0x00;
    assert_eq!(cpu.execute(&mut mmu, 0xC8), 8); // RET Z not taken
    assert_eq!(cpu.execute(&mut mmu, 0xE0), 12); // LDH (a8),A
    assert_eq!(cpu.execute(&mut mmu, 0xF0), 12); // LDH A,(a8)
    assert_eq!(cpu.execute(&mut mmu, 0xFA), 16); // LD A,(a16)
    assert_eq!(cpu.execute(&mut mmu, 0x08), 20); // LD (a16),SP
    assert_eq!(cpu.execute(&mut mmu, 0xE9), 4); // JP HL
    assert_eq!(cpu.execute(&mut mmu, 0x36), 12); // LD (HL),d8
    assert_eq!(cpu.execute(&mut mmu, 0x34), 12); // INC (HL)
}

#[test]
fn flags_low_nibble_always_zero() {
    // The low four bits of F stay zero across a spread of operations.
    let (mut cpu, mut mmu) = machine(blank_rom());
    let ops: [u8; 12] = [0x80, 0x88, 0x90, 0x98, 0xA0, 0xA8, 0xB0, 0xB8, 0x04, 0x05, 0x27, 0x37];
    for &op in ops.iter() {
        cpu.a = 0x3C;
        cpu.b = 0x2A;
        cpu.execute(&mut mmu, op);
        assert_eq!(cpu.f & 0x0F, 0, "low nibble set after opcode {:02X}", op);
    }
}

#[test]
fn pc_advances_by_opcode_length() {
    let (mut cpu, mut mmu) = machine(blank_rom());
    cpu.pc = 0x150;
    cpu.execute(&mut mmu, 0x00); // 1 byte
    assert_eq!(cpu.pc, 0x151);
    cpu.execute(&mut mmu, 0x06); // LD B,d8: 2 bytes
    assert_eq!(cpu.pc, 0x153);
    cpu.execute(&mut mmu, 0x01); // LD BC,d16: 3 bytes
    assert_eq!(cpu.pc, 0x156);
}

#[test]
fn cb_bit_set_res_are_inverses() {
    let (mut cpu, mut mmu) = machine(blank_rom());
    cpu.b = 0x00;
    cpu.execute_cb(&mut mmu, 0xD0); // SET 2,B
    assert_eq!(cpu.b, 0x04);
    cpu.execute_cb(&mut mmu, 0x50); // BIT 2,B: Z=0, H=1
    assert_eq!(cpu.f & 0x80, 0);
    assert_eq!(cpu.f & 0x20, 0x20);
    cpu.execute_cb(&mut mmu, 0x90); // RES 2,B
    assert_eq!(cpu.b, 0x00);
    cpu.execute_cb(&mut mmu, 0x50); // BIT 2,B: Z=1
    assert_eq!(cpu.f & 0x80, 0x80);
}

#[test]
fn cb_swap_and_rotates() {
    let (mut cpu, mut mmu) = machine(blank_rom());
    cpu.a = 0xF1;
    let cycles = cpu.execute_cb(&mut mmu, 0x37); // SWAP A
    assert_eq!(cycles, 8);
    assert_eq!(cpu.a, 0x1F);

    cpu.b = 0x80;
    cpu.execute_cb(&mut mmu, 0x00); // RLC B
    assert_eq!(cpu.b, 0x01);
    assert_eq!(cpu.f & 0x10, 0x10); // carry out of bit 7

    cpu.c = 0x01;
    cpu.execute_cb(&mut mmu, 0x39); // SRL C
    assert_eq!(cpu.c, 0x00);
    assert_eq!(cpu.f & 0x90, 0x90); // Z and C

    cpu.d = 0x81;
    cpu.execute_cb(&mut mmu, 0x2A); // SRA D keeps bit 7
    assert_eq!(cpu.d, 0xC0);
    assert_eq!(cpu.f & 0x10, 0x10);
}

#[test]
fn cb_hl_forms_cost_more_cycles() {
    let (mut cpu, mut mmu) = machine(blank_rom());
    cpu.h = 0xC1;
    cpu.l = 0x00;
    mmu.write_byte(0xC100, 0x01);
    assert_eq!(cpu.execute_cb(&mut mmu, 0x46), 12); // BIT 0,(HL)
    assert_eq!(cpu.execute_cb(&mut mmu, 0x06), 16); // RLC (HL)
    assert_eq!(mmu.read_byte(0xC100), 0x02);
}

#[test]
fn sub_and_cp_flags() {
    let (mut cpu, mut mmu) = machine(blank_rom());
    cpu.a = 0x10;
    cpu.b = 0x20;
    cpu.execute(&mut mmu, 0x90); // SUB B: borrow
    assert_eq!(cpu.a, 0xF0);
    assert_eq!(cpu.f & 0x10, 0x10); // C (borrow)
    assert_eq!(cpu.f & 0x40, 0x40); // N

    cpu.a = 0x42;
    cpu.b = 0x42;
    cpu.execute(&mut mmu, 0xB8); // CP B: equal
    assert_eq!(cpu.a, 0x42);
    assert_eq!(cpu.f & 0x80, 0x80); // Z
}

#[test]
fn add_hl_keeps_zero_flag() {
    let (mut cpu, mut mmu) = machine(blank_rom());
    cpu.f = 0x80;
    cpu.h = 0x0F;
    cpu.l = 0xFF;
    cpu.b = 0x00;
    cpu.c = 0x01;
    cpu.execute(&mut mmu, 0x09); // ADD HL,BC: half-carry from bit 11
    assert_eq!((cpu.h, cpu.l), (0x10, 0x00));
    assert_eq!(cpu.f & 0x80, 0x80); // Z unchanged
    assert_eq!(cpu.f & 0x20, 0x20); // H
}

#[test]
fn rst_pushes_and_jumps() {
    let (mut cpu, mut mmu) = machine(blank_rom());
    cpu.pc = 0x150;
    cpu.sp = 0xD000;
    let cycles = cpu.execute(&mut mmu, 0xEF); // RST 0x28
    assert_eq!(cycles, 16);
    assert_eq!(cpu.pc, 0x28);
    assert_eq!(mmu.read_byte(0xCFFE), 0x51);
    assert_eq!(mmu.read_byte(0xCFFF), 0x01);
}

#[test]
fn ei_di_and_reti() {
    let (mut cpu, mut mmu) = machine(blank_rom());
    cpu.execute(&mut mmu, 0xFB);
    assert!(cpu.ime);
    cpu.execute(&mut mmu, 0xF3);
    assert!(!cpu.ime);
    cpu.sp = 0xCFFE;
    mmu.write_byte(0xCFFE, 0x00);
    mmu.write_byte(0xCFFF, 0x02);
    cpu.execute(&mut mmu, 0xD9); // RETI
    assert_eq!(cpu.pc, 0x200);
    assert!(cpu.ime);
}
