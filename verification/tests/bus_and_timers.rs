//! Bus routing, banking, OAM DMA, the joypad matrix, and the DIV and
//! TIMA timers.

use dmg_core::cart::{Cart, CartError};
use dmg_core::cpu::CPU;
use dmg_core::joypad::{Joypad, JoypadButton};
use dmg_core::mmu::MMU;

fn blank_rom() -> Vec<u8> {
    vec![0u8; 0x8000]
}

fn machine(rom: Vec<u8>) -> (CPU, MMU) {
    let cart = Cart::from_rom(rom).unwrap();
    let mmu = MMU::new(cart, Joypad::new());
    (CPU::new(), mmu)
}

#[test]
fn cart_rejects_short_rom() {
    assert!(matches!(Cart::from_rom(vec![0u8; 0x100]), Err(CartError::TooShort)));
}

#[test]
fn cart_rejects_unknown_rom_size_code() {
    let mut rom = blank_rom();
    rom[0x148] = 0x09;
    assert!(matches!(Cart::from_rom(rom), Err(CartError::UnknownRomSize)));
}

#[test]
fn cart_rejects_unknown_ram_size_code() {
    let mut rom = blank_rom();
    rom[0x149] = 0x07;
    assert!(matches!(Cart::from_rom(rom), Err(CartError::UnknownRamSize)));
}

#[test]
fn cart_rejects_length_mismatch() {
    let mut rom = blank_rom();
    rom[0x148] = 0x01; // declares 64 KiB but the image is 32 KiB
    assert!(matches!(Cart::from_rom(rom), Err(CartError::SizeMismatch)));
}

#[test]
fn cart_title_keeps_printable_bytes() {
    let mut rom = blank_rom();
    let title = b"TESTTITLE";
    rom[0x134..0x134 + title.len()].copy_from_slice(title);
    let cart = Cart::from_rom(rom).unwrap();
    assert_eq!(cart.title, title.to_vec());
}

#[test]
fn rom_banking_selects_and_coerces() {
    let mut rom = vec![0u8; 0x10000];
    rom[0x148] = 0x01; // 64 KiB: four banks
    rom[0x4000 + 0x10] = 0x11; // bank 1
    rom[0x8000 + 0x10] = 0x22; // bank 2
    rom[0xC000 + 0x10] = 0x33; // bank 3
    let (_, mut mmu) = machine(rom);
    assert_eq!(mmu.read_byte(0x4010), 0x11); // bank 1 after reset
    mmu.write_byte(0x2000, 0x02);
    assert_eq!(mmu.read_byte(0x4010), 0x22);
    mmu.write_byte(0x2000, 0x00); // 0 coerces to 1
    assert_eq!(mmu.read_byte(0x4010), 0x11);
    mmu.write_byte(0x2000, 0x07); // reduced to an existing bank: 7 % 4 = 3
    assert_eq!(mmu.read_byte(0x4010), 0x33);
}

#[test]
fn external_ram_is_gated() {
    let (_, mut mmu) = machine(blank_rom());
    mmu.write_byte(0xA010, 0x55); // dropped: RAM disabled
    assert_eq!(mmu.read_byte(0xA010), 0xFF);
    mmu.write_byte(0x0000, 0x0A); // enable
    mmu.write_byte(0xA010, 0x55);
    assert_eq!(mmu.read_byte(0xA010), 0x55);
    mmu.write_byte(0x0000, 0x00); // disable again
    assert_eq!(mmu.read_byte(0xA010), 0xFF);
}

#[test]
fn echo_ram_mirrors_work_ram() {
    let (_, mut mmu) = machine(blank_rom());
    mmu.write_byte(0xC005, 0x07);
    assert_eq!(mmu.read_byte(0xE005), 0x07);
    mmu.write_byte(0xE010, 0x09);
    assert_eq!(mmu.read_byte(0xC010), 0x09);
}

#[test]
fn rom_writes_never_change_rom_bytes() {
    let (_, mut mmu) = machine(blank_rom());
    let before = mmu.read_byte(0x1234);
    mmu.write_byte(0x5234, 0xAA); // ROM space: ignored
    assert_eq!(mmu.read_byte(0x5234), mmu.cart.rom[0x5234]);
    mmu.write_byte(0x1234, 0x0A); // banking command, not a store
    assert_eq!(mmu.read_byte(0x1234), before);
}

#[test]
fn oam_dma_copies_160_bytes() {
    // Pre-populate 0xC100-0xC19F with 0xAB, trigger DMA from page 0xC1,
    // and read it all back from OAM.
    let (_, mut mmu) = machine(blank_rom());
    for i in 0..0xA0u16 {
        mmu.write_byte(0xC100 + i, 0xAB);
    }
    mmu.write_byte(0xFF46, 0xC1);
    for i in 0..0xA0u16 {
        assert_eq!(mmu.read_byte(0xFE00 + i), 0xAB);
    }
    // A byte outside the OAM window is untouched.
    assert_eq!(mmu.read_byte(0xFEA0), 0x00);
}

#[test]
fn oam_dma_through_the_cpu() {
    // LDH (0x46),A with A=0xC1 triggers the copy at the bus.
    let mut rom = blank_rom();
    rom[0x101] = 0x46;
    let (mut cpu, mut mmu) = machine(rom);
    for i in 0..0xA0u16 {
        mmu.write_byte(0xC100 + i, 0x5A);
    }
    cpu.a = 0xC1;
    cpu.execute(&mut mmu, 0xE0);
    for i in 0..0xA0u16 {
        assert_eq!(mmu.read_byte(0xFE00 + i), 0x5A);
    }
}

#[test]
fn div_advances_by_cycles_over_256() {
    let (cpu, mut mmu) = machine(blank_rom());
    for _ in 0..10 {
        cpu.update_div(&mut mmu, 24);
    }
    // 240 cycles: no increment yet.
    assert_eq!(mmu.read_byte(0xFF04), 0);
    cpu.update_div(&mut mmu, 24);
    // 264 cycles: exactly one increment, remainder 8.
    assert_eq!(mmu.read_byte(0xFF04), 1);
    assert_eq!(mmu.div_cycles, 8);
}

#[test]
fn div_write_resets_register_and_accumulator() {
    let (cpu, mut mmu) = machine(blank_rom());
    for _ in 0..11 {
        cpu.update_div(&mut mmu, 24);
    }
    assert_eq!(mmu.read_byte(0xFF04), 1);
    mmu.write_byte(0xFF04, 0x55);
    assert_eq!(mmu.read_byte(0xFF04), 0);
    assert_eq!(mmu.div_cycles, 0);
}

#[test]
fn tima_overflow_reloads_and_requests_interrupt() {
    let (cpu, mut mmu) = machine(blank_rom());
    mmu.write_byte(0xFF07, 0x05); // enabled, 262144 Hz: one tick per 16 cycles
    mmu.write_byte(0xFF05, 0xFF);
    mmu.write_byte(0xFF06, 0xAB);
    cpu.update_tima(&mut mmu, 24);
    assert_eq!(mmu.read_byte(0xFF05), 0xAB); // reloaded from TMA
    assert_eq!(mmu.read_byte(0xFF0F) & 0x04, 0x04); // Timer interrupt raised
    assert_eq!(mmu.tima_cycles, 8);
}

#[test]
fn tima_disabled_does_not_count() {
    let (cpu, mut mmu) = machine(blank_rom());
    mmu.write_byte(0xFF07, 0x01); // fast rate selected but disabled
    mmu.write_byte(0xFF05, 0x10);
    cpu.update_tima(&mut mmu, 24);
    assert_eq!(mmu.read_byte(0xFF05), 0x10);
    assert_eq!(mmu.tima_cycles, 0);
}

#[test]
fn tima_slow_rate_accumulates() {
    let (cpu, mut mmu) = machine(blank_rom());
    mmu.write_byte(0xFF07, 0x04); // enabled, 4096 Hz: one tick per 1024 cycles
    for _ in 0..42 {
        cpu.update_timers(&mut mmu, 24);
    }
    // 1008 cycles: still no tick.
    assert_eq!(mmu.read_byte(0xFF05), 0);
    cpu.update_timers(&mut mmu, 24);
    // 1032 cycles: one tick, remainder 8.
    assert_eq!(mmu.read_byte(0xFF05), 1);
    assert_eq!(mmu.tima_cycles, 8);
}

#[test]
fn joypad_rows_and_select() {
    let mut joypad = Joypad::new();
    joypad.press_button(JoypadButton::A);
    joypad.press_button(JoypadButton::Up);
    let cart = Cart::from_rom(blank_rom()).unwrap();
    let mut mmu = MMU::new(cart, joypad);
    mmu.write_byte(0xFF00, 0x10); // select the action row (bit 5 low)
    assert_eq!(mmu.read_byte(0xFF00), 0xFE); // A pressed: bit 0 low
    mmu.write_byte(0xFF00, 0x20); // select the direction row (bit 4 low)
    assert_eq!(mmu.read_byte(0xFF00), 0xFB); // Up pressed: bit 2 low
    mmu.write_byte(0xFF00, 0x30); // no row selected
    assert_eq!(mmu.read_byte(0xFF00), 0xFF);
}

#[test]
fn joypad_release_restores_bits() {
    let mut joypad = Joypad::new();
    joypad.press_button(JoypadButton::Start);
    joypad.release_button(JoypadButton::Start);
    let cart = Cart::from_rom(blank_rom()).unwrap();
    let mut mmu = MMU::new(cart, joypad);
    mmu.write_byte(0xFF00, 0x10);
    assert_eq!(mmu.read_byte(0xFF00), 0xFF);
}

#[test]
fn interrupt_dispatch_priority() {
    // With VBlank and Timer both pending, VBlank (priority 0) wins.
    let (mut cpu, mut mmu) = machine(blank_rom());
    cpu.ime = true;
    cpu.sp = 0xD000;
    mmu.write_byte(0xFFFF, 0x05);
    mmu.write_byte(0xFF0F, 0x05);
    cpu.check_interrupts(&mut mmu);
    assert_eq!(cpu.pc, 0x40);
    assert!(!cpu.ime);
    assert_eq!(mmu.read_byte(0xFF0F), 0x04); // Timer still pending
    assert_eq!(cpu.sp, 0xCFFE);
}

#[test]
fn request_interrupt_sets_if_bit() {
    let (mut cpu, mut mmu) = machine(blank_rom());
    cpu.request_interrupt(&mut mmu, dmg_core::cpu::InterruptBit::Serial);
    assert_eq!(mmu.read_byte(0xFF0F), 0x08);
}

#[test]
fn read_short_is_little_endian() {
    let (_, mut mmu) = machine(blank_rom());
    mmu.write_short(0xC200, 0xBEEF);
    assert_eq!(mmu.read_byte(0xC200), 0xEF);
    assert_eq!(mmu.read_byte(0xC201), 0xBE);
    assert_eq!(mmu.read_short(0xC200), 0xBEEF);
}
