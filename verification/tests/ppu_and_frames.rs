//! PPU scanline machine, LY sequencing, VBlank delivery, rendering, and
//! whole-frame scheduling.

use dmg_core::cart::Cart;
use dmg_core::cpu::CPU;
use dmg_core::gb::{StepError, GB};
use dmg_core::joypad::Joypad;
use dmg_core::mmu::MMU;
use dmg_core::ppu::{PPUMode, PPU};

fn blank_rom() -> Vec<u8> {
    vec![0u8; 0x8000]
}

fn machine(rom: Vec<u8>) -> (CPU, MMU, PPU) {
    let cart = Cart::from_rom(rom).unwrap();
    let mmu = MMU::new(cart, Joypad::new());
    (CPU::new(), mmu, PPU::new())
}

#[test]
fn ly_sequences_through_a_frame() {
    // LY runs 0,1,...,153 and returns to 0; the VBlank interrupt bit
    // rises exactly once, on the 143 -> 144 transition.
    let (_, mut mmu, mut ppu) = machine(blank_rom());
    let mut prev_ly = 0u8;
    let mut vblank_requests = 0u32;
    let mut wrapped = false;
    let mut guard = 0u32;
    while !wrapped {
        ppu.update(&mut mmu, 4);
        let ly = mmu.read_byte(0xFF44);
        if ly != prev_ly {
            if prev_ly == 153 {
                assert_eq!(ly, 0);
                wrapped = true;
            } else {
                assert_eq!(ly, prev_ly + 1);
            }
            if ly == 144 {
                assert_eq!(mmu.read_byte(0xFF0F) & 0x01, 0x01);
                mmu.write_byte(0xFF0F, 0);
                vblank_requests += 1;
            }
            prev_ly = ly;
        }
        assert_eq!(mmu.read_byte(0xFF0F) & 0x01, 0);
        guard += 1;
        assert!(guard < 40000, "frame did not complete");
    }
    assert_eq!(vblank_requests, 1);
}

#[test]
fn vblank_interrupt_is_delivered() {
    // With IE bit 0 and IME set, completing the LY 143 HBlank dispatches
    // to 0x0040 with IME cleared, IF bit 0 cleared, and SP down by two.
    let (mut cpu, mut mmu, mut ppu) = machine(blank_rom());
    cpu.ime = true;
    cpu.sp = 0xD000;
    cpu.pc = 0x150;
    mmu.write_byte(0xFFFF, 0x01);
    mmu.write_byte(0xFF44, 143);
    ppu.current_mode = PPUMode::HBlank;
    ppu.current_cycles = 200;
    ppu.update(&mut mmu, 24);
    assert_eq!(mmu.read_byte(0xFF44), 144);
    assert_eq!(mmu.read_byte(0xFF0F) & 0x01, 0x01);
    cpu.check_interrupts(&mut mmu);
    assert_eq!(cpu.pc, 0x40);
    assert!(!cpu.ime);
    assert_eq!(mmu.read_byte(0xFF0F) & 0x01, 0);
    assert_eq!(cpu.sp, 0xCFFE);
    assert_eq!(mmu.read_short(0xCFFE), 0x150);
}

#[test]
fn ppu_mode_budgets() {
    // Each phase hands over exactly when its budget is reached: OAM at
    // 80 cycles, VRAM at 172, HBlank at 204.
    let (_, mut mmu, mut ppu) = machine(blank_rom());
    assert_eq!(ppu.current_mode, PPUMode::OAM);
    for _ in 0..19 {
        ppu.update(&mut mmu, 4);
    }
    assert_eq!(ppu.current_mode, PPUMode::OAM); // 76 cycles: one short
    ppu.update(&mut mmu, 4);
    assert_eq!(ppu.current_mode, PPUMode::VRAM); // exactly 80
    assert_eq!(ppu.current_cycles, 0);
    for _ in 0..43 {
        ppu.update(&mut mmu, 4);
    }
    assert_eq!(ppu.current_mode, PPUMode::HBlank); // exactly 172
    for _ in 0..51 {
        ppu.update(&mut mmu, 4);
    }
    assert_eq!(ppu.current_mode, PPUMode::OAM); // exactly 204
    assert_eq!(mmu.read_byte(0xFF44), 1);
}

#[test]
fn background_renders_solid_tile() {
    // Tile 0 with every data byte 0xFF gives color index 3 on every
    // pixel; through BGP 0xE4 that is black.
    let (_, mut mmu, mut ppu) = machine(blank_rom());
    mmu.write_byte(0xFF40, 0x91); // LCD on, tile data 0x8000, BG on
    mmu.write_byte(0xFF47, 0xE4);
    for i in 0..16u16 {
        mmu.write_byte(0x8000 + i, 0xFF);
    }
    ppu.draw_scanline(&mmu, 0);
    for x in 0..160usize {
        assert_eq!(ppu.framebuffer[x], 0x00, "pixel {}", x);
    }
    // Other rows keep the boot-time white.
    assert_eq!(ppu.framebuffer[160], 0xFF);
}

#[test]
fn background_respects_scroll_and_palette() {
    // Tile 1 has its top line 0x80/0x00: only the leftmost pixel of the
    // tile is color 1. With BGP 0xE4 that is light gray.
    let (_, mut mmu, mut ppu) = machine(blank_rom());
    mmu.write_byte(0xFF40, 0x91);
    mmu.write_byte(0xFF47, 0xE4);
    mmu.write_byte(0x8010, 0x80); // tile 1, line 0, low plane
    mmu.write_byte(0x9800, 0x01); // map cell 0 selects tile 1
    ppu.draw_scanline(&mmu, 0);
    assert_eq!(ppu.framebuffer[0], 0xAA);
    assert_eq!(ppu.framebuffer[1], 0xFF);
    // Scroll one pixel right: the marked pixel moves out of view.
    mmu.write_byte(0xFF43, 1);
    ppu.draw_scanline(&mmu, 0);
    assert_eq!(ppu.framebuffer[0], 0xFF);
}

#[test]
fn window_overwrites_background() {
    // Background tile 0 is solid black; the window (map 0x9C00, tile 1,
    // all-zero data) covers the whole line and paints it white.
    let (_, mut mmu, mut ppu) = machine(blank_rom());
    mmu.write_byte(0xFF40, 0xF1); // LCD, window, window map 0x9C00, data 0x8000, BG
    mmu.write_byte(0xFF47, 0xE4);
    for i in 0..16u16 {
        mmu.write_byte(0x8000 + i, 0xFF); // tile 0: solid color 3
    }
    for i in 0..20u16 {
        mmu.write_byte(0x9C00 + i, 0x01); // window row selects tile 1
    }
    mmu.write_byte(0xFF4A, 0); // WY
    mmu.write_byte(0xFF4B, 7); // WX: window origin at column 0
    ppu.draw_scanline(&mmu, 0);
    for x in 0..160usize {
        assert_eq!(ppu.framebuffer[x], 0xFF, "pixel {}", x);
    }
}

#[test]
fn lcd_off_draws_nothing() {
    let (_, mut mmu, mut ppu) = machine(blank_rom());
    mmu.write_byte(0xFF40, 0x11); // LCD off
    for i in 0..16u16 {
        mmu.write_byte(0x8000 + i, 0xFF);
    }
    ppu.draw_scanline(&mmu, 0);
    assert_eq!(ppu.framebuffer[0], 0xFF); // untouched boot white
}

#[test]
fn run_frame_of_nops_completes() {
    let mut gb = GB::new(blank_rom()).unwrap();
    let serial = gb.run_frame().unwrap();
    assert!(serial.is_empty());
    assert!(gb.timing.frame_cycles < 70224);
    assert_eq!(gb.ppu.framebuffer.len(), 160 * 144);
    assert!(gb.timing.current_cycles >= 70224);
}

#[test]
fn step_refuses_undefined_opcode() {
    let mut rom = blank_rom();
    rom[0x100] = 0xD3;
    let mut gb = GB::new(rom).unwrap();
    assert_eq!(gb.step().unwrap_err(), StepError::IllegalOpcode);
    assert_eq!(gb.cpu.pc, 0x100); // machine unchanged
}

#[test]
fn serial_hook_emits_byte() {
    // LD A,0x50; LDH (0x01),A; LD A,0x81; LDH (0x02),A -- the last write
    // makes the step emit 0x50 and clear 0xFF02.
    let mut rom = blank_rom();
    let program: [u8; 8] = [0x3E, 0x50, 0xE0, 0x01, 0x3E, 0x81, 0xE0, 0x02];
    rom[0x100..0x108].copy_from_slice(&program);
    let mut gb = GB::new(rom).unwrap();
    let (_, s1) = gb.step().unwrap();
    assert_eq!(s1, None);
    let (_, s2) = gb.step().unwrap();
    assert_eq!(s2, None);
    let (_, s3) = gb.step().unwrap();
    assert_eq!(s3, None);
    let (_, s4) = gb.step().unwrap();
    assert_eq!(s4, Some(0x50));
    assert_eq!(gb.mmu.read_byte(0xFF02), 0x00);
}

#[test]
fn gb_new_rejects_bad_header() {
    assert!(GB::new(vec![0u8; 64]).is_err());
    let mut rom = blank_rom();
    rom[0x148] = 0x42;
    assert!(GB::new(rom).is_err());
}

#[test]
fn gb_boot_state_matches_dmg() {
    let gb = GB::new(blank_rom()).unwrap();
    assert_eq!(gb.cpu.a, 0x01);
    assert_eq!(gb.cpu.f, 0xB0);
    assert_eq!((gb.cpu.b, gb.cpu.c), (0x00, 0x13));
    assert_eq!((gb.cpu.d, gb.cpu.e), (0x00, 0xD8));
    assert_eq!((gb.cpu.h, gb.cpu.l), (0x01, 0x4D));
    assert_eq!(gb.cpu.sp, 0xFFFE);
    assert_eq!(gb.cpu.pc, 0x100);
    assert!(!gb.cpu.ime);
}

#[test]
fn frame_preserves_cycle_phase() {
    // The remainder past one frame budget carries into the next frame.
    let mut gb = GB::new(blank_rom()).unwrap();
    gb.run_frame().unwrap();
    let leftover = gb.timing.frame_cycles;
    gb.run_frame().unwrap();
    assert!(gb.timing.frame_cycles < 70224);
    // Two frames of NOPs: phase stays consistent (both leftovers small).
    assert!(leftover < 24);
}

#[test]
fn sprite_renders_over_background() {
    // Sprite 0 at screen (0,0), tile 2 solid color 3, OBP0 0xE4: the
    // first eight pixels go black, the ninth keeps the background.
    let (_, mut mmu, mut ppu) = machine(blank_rom());
    mmu.write_byte(0xFF40, 0x93); // LCD, BG, OBJ on, tile data 0x8000
    mmu.write_byte(0xFF47, 0x00); // BGP all white
    mmu.write_byte(0xFF48, 0xE4); // OBP0
    for i in 0..16u16 {
        mmu.write_byte(0x8020 + i, 0xFF); // tile 2: solid color 3
    }
    mmu.write_byte(0xFE00, 16); // Y: screen row 0
    mmu.write_byte(0xFE01, 8); // X: screen column 0
    mmu.write_byte(0xFE02, 2); // tile
    mmu.write_byte(0xFE03, 0); // flags
    ppu.draw_scanline(&mmu, 0);
    for x in 0..8usize {
        assert_eq!(ppu.framebuffer[x], 0x00, "pixel {}", x);
    }
    assert_eq!(ppu.framebuffer[8], 0xFF);
}

#[test]
fn sprite_transparent_pixels_show_background() {
    // A sprite whose tile is all zeros is fully transparent.
    let (_, mut mmu, mut ppu) = machine(blank_rom());
    mmu.write_byte(0xFF40, 0x93);
    mmu.write_byte(0xFF47, 0x00);
    mmu.write_byte(0xFF48, 0xE4);
    mmu.write_byte(0xFE00, 16);
    mmu.write_byte(0xFE01, 8);
    mmu.write_byte(0xFE02, 3); // tile 3: all zero
    mmu.write_byte(0xFE03, 0);
    ppu.draw_scanline(&mmu, 0);
    assert_eq!(ppu.framebuffer[0], 0xFF);
}

#[test]
fn sprite_priority_lower_x_wins() {
    // Two overlapping sprites: the one with the smaller X shows.
    let (_, mut mmu, mut ppu) = machine(blank_rom());
    mmu.write_byte(0xFF40, 0x93);
    mmu.write_byte(0xFF47, 0x00);
    mmu.write_byte(0xFF48, 0xE4); // color 3 -> black
    mmu.write_byte(0xFF49, 0x90); // color 3 -> dark gray under OBP1
    for i in 0..16u16 {
        mmu.write_byte(0x8020 + i, 0xFF); // tile 2: solid color 3
    }
    // Sprite 0: X=12, OBP1 (would paint white).
    mmu.write_byte(0xFE00, 16);
    mmu.write_byte(0xFE01, 12);
    mmu.write_byte(0xFE02, 2);
    mmu.write_byte(0xFE03, 0x10);
    // Sprite 1: X=8, OBP0 (paints black) -- smaller X, so it wins.
    mmu.write_byte(0xFE04, 16);
    mmu.write_byte(0xFE05, 8);
    mmu.write_byte(0xFE06, 2);
    mmu.write_byte(0xFE07, 0);
    ppu.draw_scanline(&mmu, 0);
    assert_eq!(ppu.framebuffer[5], 0x00); // overlap: sprite 1 wins
    assert_eq!(ppu.framebuffer[10], 0x55); // only sprite 0: OBP1 color 3
}

#[test]
fn sprite_x_flip_mirrors_columns() {
    // Tile 4 line 0 is 0x80/0x00: leftmost pixel only; X-flip moves it
    // to the rightmost column.
    let (_, mut mmu, mut ppu) = machine(blank_rom());
    mmu.write_byte(0xFF40, 0x93);
    mmu.write_byte(0xFF47, 0x00);
    mmu.write_byte(0xFF48, 0xE4);
    mmu.write_byte(0x8040, 0x80); // tile 4, line 0, low plane
    mmu.write_byte(0xFE00, 16);
    mmu.write_byte(0xFE01, 8);
    mmu.write_byte(0xFE02, 4);
    mmu.write_byte(0xFE03, 0x20); // X flip
    ppu.draw_scanline(&mmu, 0);
    assert_eq!(ppu.framebuffer[0], 0xFF);
    assert_eq!(ppu.framebuffer[7], 0xAA); // color 1 through OBP0 0xE4
}

#[test]
fn sprite_behind_background_flag() {
    // A sprite flagged behind the background shows only where the
    // background has color index 0.
    let (_, mut mmu, mut ppu) = machine(blank_rom());
    mmu.write_byte(0xFF40, 0x93);
    mmu.write_byte(0xFF47, 0xE4); // BGP identity: index 0 white
    mmu.write_byte(0xFF48, 0xE4);
    for i in 0..16u16 {
        mmu.write_byte(0x8020 + i, 0xFF); // tile 2 solid
    }
    // Background tile 1 at map cell 1 paints columns 8-15 color 3.
    mmu.write_byte(0x8010, 0xFF);
    mmu.write_byte(0x8011, 0xFF);
    mmu.write_byte(0x9801, 0x01);
    // Sprite behind the background, spanning columns 4-11.
    mmu.write_byte(0xFE00, 16);
    mmu.write_byte(0xFE01, 12);
    mmu.write_byte(0xFE02, 2);
    mmu.write_byte(0xFE03, 0x80);
    ppu.draw_scanline(&mmu, 0);
    assert_eq!(ppu.framebuffer[5], 0x00); // over bg index 0: sprite shows
    assert_eq!(ppu.framebuffer[9], 0x00); // bg index 3 is black here too
    // Make the background non-zero but a distinct shade to see blocking.
    mmu.write_byte(0xFF47, 0x90); // index 0 -> white, index 3 -> dark gray
    ppu.draw_scanline(&mmu, 0);
    assert_eq!(ppu.framebuffer[5], 0x00); // still over index 0
    assert_eq!(ppu.framebuffer[9], 0x55); // blocked: background shows
}

#[test]
fn at_most_ten_sprites_per_scanline() {
    // Twelve sprites cover the line; the eleventh and twelfth are
    // dropped, so their columns keep the background.
    let (_, mut mmu, mut ppu) = machine(blank_rom());
    mmu.write_byte(0xFF40, 0x93);
    mmu.write_byte(0xFF47, 0x00);
    mmu.write_byte(0xFF48, 0xE4);
    for i in 0..16u16 {
        mmu.write_byte(0x8020 + i, 0xFF);
    }
    for s in 0..12u16 {
        mmu.write_byte(0xFE00 + s * 4, 16);
        mmu.write_byte(0xFE01 + s * 4, 8 + (s as u8) * 8); // side by side
        mmu.write_byte(0xFE02 + s * 4, 2);
        mmu.write_byte(0xFE03 + s * 4, 0);
    }
    ppu.draw_scanline(&mmu, 0);
    assert_eq!(ppu.framebuffer[8 * 9], 0x00); // tenth sprite drawn
    assert_eq!(ppu.framebuffer[8 * 10], 0xFF); // eleventh dropped
    assert_eq!(ppu.framebuffer[8 * 11], 0xFF); // twelfth dropped
}

#[test]
fn tall_sprites_use_both_tile_halves() {
    // In 8x16 mode row 8 reads the odd tile; the even tile's low bit is
    // ignored.
    let (_, mut mmu, mut ppu) = machine(blank_rom());
    mmu.write_byte(0xFF40, 0x97); // OBJ size 16
    mmu.write_byte(0xFF47, 0x00);
    mmu.write_byte(0xFF48, 0xE4);
    for i in 0..16u16 {
        mmu.write_byte(0x8070 + i, 0xFF); // tile 7: solid (lower half of pair 6/7)
    }
    mmu.write_byte(0xFE00, 16);
    mmu.write_byte(0xFE01, 8);
    mmu.write_byte(0xFE02, 7); // low bit cleared: pair 6/7
    mmu.write_byte(0xFE03, 0);
    ppu.draw_scanline(&mmu, 0); // row 0: tile 6, all zero
    assert_eq!(ppu.framebuffer[0], 0xFF);
    ppu.draw_scanline(&mmu, 8); // row 8: tile 7, solid
    assert_eq!(ppu.framebuffer[8 * 160], 0x00);
}

#[test]
fn sprite_behind_flag_with_background_disabled() {
    // With the background pass off, the background-and-window color
    // index is 0 everywhere, so a behind-flagged sprite always shows.
    let (_, mut mmu, mut ppu) = machine(blank_rom());
    mmu.write_byte(0xFF40, 0x92); // LCD and OBJ on, BG off
    mmu.write_byte(0xFF48, 0xE4);
    for i in 0..16u16 {
        mmu.write_byte(0x8020 + i, 0xFF); // tile 2: solid color 3
    }
    mmu.write_byte(0xFE00, 16);
    mmu.write_byte(0xFE01, 8);
    mmu.write_byte(0xFE02, 2);
    mmu.write_byte(0xFE03, 0x80); // behind the background
    ppu.draw_scanline(&mmu, 0);
    assert_eq!(ppu.framebuffer[0], 0x00);
}

#[test]
fn sprite_behind_flag_blocked_by_index_not_shade() {
    // BGP 0xFF maps every index to black, so index 0 and index 3 share
    // a shade; the behind-flag still distinguishes them by index.
    let (_, mut mmu, mut ppu) = machine(blank_rom());
    mmu.write_byte(0xFF40, 0x93); // LCD, BG, OBJ on
    mmu.write_byte(0xFF47, 0xFF); // every background index is black
    mmu.write_byte(0xFF48, 0x40); // sprite color 3 -> light gray
    for i in 0..16u16 {
        mmu.write_byte(0x8020 + i, 0xFF); // tile 2: solid color 3
    }
    // Background: map cell 0 keeps tile 0 (index 0), cell 1 takes the
    // solid tile 2 (index 3); both render black through BGP 0xFF.
    mmu.write_byte(0x9801, 0x02);
    // A behind-flagged sprite spanning columns 4-11.
    mmu.write_byte(0xFE00, 16);
    mmu.write_byte(0xFE01, 12);
    mmu.write_byte(0xFE02, 2);
    mmu.write_byte(0xFE03, 0x80);
    ppu.draw_scanline(&mmu, 0);
    assert_eq!(ppu.framebuffer[5], 0xAA); // over index 0: sprite shows
    assert_eq!(ppu.framebuffer[9], 0x00); // over index 3: blocked
}

#[test]
fn stat_reflects_mode_and_coincidence() {
    // STAT bits 1:0 follow the mode, bit 2 follows LYC==LY, and the
    // written upper bits are kept.
    let (_, mut mmu, mut ppu) = machine(blank_rom());
    ppu.update(&mut mmu, 4);
    assert_eq!(mmu.read_byte(0xFF41), 0x06); // OAM, LY==LYC==0
    mmu.write_byte(0xFF41, 0xF8); // guest sets the enable bits
    mmu.write_byte(0xFF45, 5); // LYC no longer matches
    ppu.update(&mut mmu, 4);
    assert_eq!(mmu.read_byte(0xFF41), 0xFA); // enables kept, OAM, no match
    for _ in 0..18 {
        ppu.update(&mut mmu, 4);
    }
    assert_eq!(mmu.read_byte(0xFF41), 0xFB); // VRAM after 80 cycles
}
