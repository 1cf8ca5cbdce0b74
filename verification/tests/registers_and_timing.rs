//! Register-file accessors, flag helpers, the address enums, the frame
//! counters, and wrapping edge cases.

use dmg_core::cart::Cart;
use dmg_core::cpu::{FlagRegister, InterruptSource, TimerSource, CPU};
use dmg_core::joypad::Joypad;
use dmg_core::mmu::MMU;
use dmg_core::ppu::{LCDCBits, PPUMemory};
use dmg_core::timing::Timing;

fn blank_rom() -> Vec<u8> {
    vec![0u8; 0x8000]
}

fn machine(rom: Vec<u8>) -> (CPU, MMU) {
    let cart = Cart::from_rom(rom).unwrap();
    let mmu = MMU::new(cart, Joypad::new());
    (CPU::new(), mmu)
}

#[test]
fn flag_helpers_set_and_get() {
    let mut cpu = CPU::new();
    cpu.f = 0;
    cpu.set_flag(FlagRegister::Zero, true);
    cpu.set_flag(FlagRegister::Carry, true);
    assert_eq!(cpu.f, 0x90);
    assert_eq!(cpu.get_flag(FlagRegister::Zero), 1);
    assert_eq!(cpu.get_flag(FlagRegister::Sub), 0);
    assert_eq!(cpu.get_flag(FlagRegister::HalfCarry), 0);
    assert_eq!(cpu.get_flag(FlagRegister::Carry), 1);
    cpu.set_flag(FlagRegister::Zero, false);
    assert_eq!(cpu.f, 0x10);
}

#[test]
fn register_pairs_round_trip() {
    let mut cpu = CPU::new();
    cpu.set_bc(0x1234);
    cpu.set_de(0x5678);
    cpu.set_hl(0x9ABC);
    cpu.set_af(0xDEF0);
    assert_eq!(cpu.get_bc(), 0x1234);
    assert_eq!(cpu.get_de(), 0x5678);
    assert_eq!(cpu.get_hl(), 0x9ABC);
    assert_eq!(cpu.get_af(), 0xDEF0);
    assert_eq!((cpu.b, cpu.c), (0x12, 0x34));
}

#[test]
fn interrupt_and_timer_addresses() {
    assert_eq!(InterruptSource::VBlank.addr(), 0x40);
    assert_eq!(InterruptSource::STAT.addr(), 0x48);
    assert_eq!(InterruptSource::Timer.addr(), 0x50);
    assert_eq!(InterruptSource::Serial.addr(), 0x58);
    assert_eq!(InterruptSource::Joypad.addr(), 0x60);
    assert_eq!(InterruptSource::InterruptFlag.addr(), 0xFF0F);
    assert_eq!(InterruptSource::InterruptEnable.addr(), 0xFFFF);
    assert_eq!(TimerSource::DividerRegister.addr(), 0xFF04);
    assert_eq!(TimerSource::TimerCounter.addr(), 0xFF05);
    assert_eq!(TimerSource::TimerModulo.addr(), 0xFF06);
    assert_eq!(TimerSource::TimerControl.addr(), 0xFF07);
}

#[test]
fn ppu_register_addresses_and_lcdc_bits() {
    assert_eq!(PPUMemory::LCDC.addr(), 0xFF40);
    assert_eq!(PPUMemory::LY.addr(), 0xFF44);
    assert_eq!(PPUMemory::DMA.addr(), 0xFF46);
    assert_eq!(PPUMemory::BGP.addr(), 0xFF47);
    assert_eq!(PPUMemory::WX.addr(), 0xFF4B);
    assert_eq!(LCDCBits::BackgroundWindowEnable.bit(), 0);
    assert_eq!(LCDCBits::BackgroundAndWindowTileDataSelect.bit(), 4);
    assert_eq!(LCDCBits::LCDDisplayEnable.bit(), 7);
}

#[test]
fn timing_counters() {
    let mut t = Timing::new();
    t.add_cycles(70000);
    assert!(!t.is_frame_complete());
    t.add_cycles(300);
    assert!(t.is_frame_complete());
    assert_eq!(t.current_cycles, 70300);
    t.reset_frame_cycles();
    assert_eq!(t.frame_cycles, 76); // 70300 - 70224: the phase is kept
    assert_eq!(t.current_cycles, 70300);
    assert!(!t.is_frame_complete());
}

#[test]
fn sixteen_bit_wrapping() {
    let (mut cpu, mut mmu) = machine(blank_rom());
    cpu.set_bc(0xFFFF);
    cpu.execute(&mut mmu, 0x03); // INC BC wraps
    assert_eq!(cpu.get_bc(), 0x0000);
    cpu.execute(&mut mmu, 0x0B); // DEC BC wraps back
    assert_eq!(cpu.get_bc(), 0xFFFF);
}

#[test]
fn ld_hl_sp_plus_negative_offset() {
    // LD HL,SP+0xFF adds -1; the flags come from the unsigned low byte.
    let mut rom = blank_rom();
    rom[0x101] = 0xFF;
    let (mut cpu, mut mmu) = machine(rom);
    cpu.sp = 0x0001;
    let cycles = cpu.execute(&mut mmu, 0xF8);
    assert_eq!(cycles, 12);
    assert_eq!(cpu.get_hl(), 0x0000);
    assert_eq!(cpu.sp, 0x0001); // SP itself is untouched
    assert_eq!(cpu.f, 0x30); // H and C from the low byte
}

#[test]
fn jr_backwards() {
    let mut rom = blank_rom();
    rom[0x201] = 0xFE; // -2: jump onto the JR itself
    let (mut cpu, mut mmu) = machine(rom);
    cpu.pc = 0x200;
    cpu.execute(&mut mmu, 0x18);
    assert_eq!(cpu.pc, 0x200);
}

#[test]
fn accumulator_rotates() {
    let (mut cpu, mut mmu) = machine(blank_rom());
    cpu.a = 0x85;
    cpu.f = 0x00;
    cpu.execute(&mut mmu, 0x07); // RLCA
    assert_eq!(cpu.a, 0x0B);
    assert_eq!(cpu.f, 0x10);
    cpu.a = 0x01;
    cpu.f = 0x00;
    cpu.execute(&mut mmu, 0x1F); // RRA: carry-in 0, carry-out 1
    assert_eq!(cpu.a, 0x00);
    assert_eq!(cpu.f, 0x10);
    cpu.a = 0x00;
    cpu.execute(&mut mmu, 0x1F); // RRA again: the old carry rotates in
    assert_eq!(cpu.a, 0x80);
    assert_eq!(cpu.f, 0x00);
}

#[test]
fn logic_ops_and_cpl() {
    let (mut cpu, mut mmu) = machine(blank_rom());
    cpu.a = 0xF0;
    cpu.b = 0x0F;
    cpu.execute(&mut mmu, 0xA0); // AND B: zero, H set
    assert_eq!(cpu.a, 0x00);
    assert_eq!(cpu.f, 0xA0);
    cpu.a = 0xF0;
    cpu.execute(&mut mmu, 0xB0); // OR B
    assert_eq!(cpu.a, 0xFF);
    assert_eq!(cpu.f, 0x00);
    cpu.execute(&mut mmu, 0xA8); // XOR B
    assert_eq!(cpu.a, 0xF0);
    cpu.execute(&mut mmu, 0x2F); // CPL
    assert_eq!(cpu.a, 0x0F);
    assert_eq!(cpu.f & 0x60, 0x60); // N and H
}

#[test]
fn scf_and_ccf() {
    let (mut cpu, mut mmu) = machine(blank_rom());
    cpu.f = 0x80;
    cpu.execute(&mut mmu, 0x37); // SCF keeps Z, sets C
    assert_eq!(cpu.f, 0x90);
    cpu.execute(&mut mmu, 0x3F); // CCF flips C
    assert_eq!(cpu.f, 0x80);
    cpu.execute(&mut mmu, 0x3F);
    assert_eq!(cpu.f, 0x90);
}

#[test]
fn sbc_with_borrow_chain() {
    let (mut cpu, mut mmu) = machine(blank_rom());
    cpu.a = 0x00;
    cpu.b = 0x00;
    cpu.f = 0x10; // carry in
    cpu.execute(&mut mmu, 0x98); // SBC A,B: 0 - 0 - 1
    assert_eq!(cpu.a, 0xFF);
    assert_eq!(cpu.f & 0x10, 0x10); // borrow out
    assert_eq!(cpu.f & 0x40, 0x40); // N
}

#[test]
fn ldh_c_forms() {
    let (mut cpu, mut mmu) = machine(blank_rom());
    cpu.c = 0x80; // HRAM at 0xFF80
    cpu.a = 0x66;
    assert_eq!(cpu.execute(&mut mmu, 0xE2), 8); // LD (C),A
    assert_eq!(mmu.read_byte(0xFF80), 0x66);
    cpu.a = 0;
    assert_eq!(cpu.execute(&mut mmu, 0xF2), 8); // LD A,(C)
    assert_eq!(cpu.a, 0x66);
}

#[test]
fn ld_a16_sp_stores_little_endian() {
    let mut rom = blank_rom();
    rom[0x101] = 0x00;
    rom[0x102] = 0xC2; // a16 = 0xC200
    let (mut cpu, mut mmu) = machine(rom);
    cpu.sp = 0xBEEF;
    assert_eq!(cpu.execute(&mut mmu, 0x08), 20);
    assert_eq!(mmu.read_byte(0xC200), 0xEF);
    assert_eq!(mmu.read_byte(0xC201), 0xBE);
}

#[test]
fn hl_indirect_loads_move_the_pointer() {
    let (mut cpu, mut mmu) = machine(blank_rom());
    cpu.set_hl(0xC100);
    cpu.a = 0x42;
    cpu.execute(&mut mmu, 0x22); // LD (HL+),A
    assert_eq!(mmu.read_byte(0xC100), 0x42);
    assert_eq!(cpu.get_hl(), 0xC101);
    cpu.execute(&mut mmu, 0x32); // LD (HL-),A
    assert_eq!(mmu.read_byte(0xC101), 0x42);
    assert_eq!(cpu.get_hl(), 0xC100);
    cpu.a = 0;
    cpu.execute(&mut mmu, 0x2A); // LD A,(HL+)
    assert_eq!(cpu.a, 0x42);
    assert_eq!(cpu.get_hl(), 0xC101);
    cpu.execute(&mut mmu, 0x3A); // LD A,(HL-)
    assert_eq!(cpu.get_hl(), 0xC100);
}

#[test]
fn inc_dec_preserve_carry() {
    let (mut cpu, mut mmu) = machine(blank_rom());
    cpu.f = 0x10;
    cpu.b = 0x0F;
    cpu.execute(&mut mmu, 0x04); // INC B: half-carry, C preserved
    assert_eq!(cpu.b, 0x10);
    assert_eq!(cpu.f, 0x30);
    cpu.execute(&mut mmu, 0x05); // DEC B: N set, C preserved
    assert_eq!(cpu.b, 0x0F);
    assert_eq!(cpu.f, 0x70);
}
