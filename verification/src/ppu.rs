//! Picture processing unit: the per-scanline mode machine
//! (OAM - VRAM - HBlank - VBlank), LY sequencing, the VBlank interrupt
//! request, and the background, window, and sprite scanline rasterizer
//! that fills the 160 x 144 grayscale framebuffer.

use crate::bits::wrap8;
use crate::mmu::{MemV, MMU};
use vstd::prelude::*;

verus! {

/// Screen width in pixels.
pub const SCREEN_WIDTH: u32 = 160;

/// Screen height in pixels.
pub const SCREEN_HEIGHT: u32 = 144;

/// Shade written for color index 0.
pub const COLOR_WHITE: u8 = 0xFF;

/// Shade written for color index 1.
pub const COLOR_LIGHT_GRAY: u8 = 0xAA;

/// Shade written for color index 2.
pub const COLOR_DARK_GRAY: u8 = 0x55;

/// Shade written for color index 3.
pub const COLOR_BLACK: u8 = 0x00;

/// The PPU registers at 0xFF40-0xFF4B.
#[derive(Clone, Copy, PartialEq, Eq, Structural, Debug)]
pub enum PPUMemory {
    LCDC,
    STAT,
    SCY,
    SCX,
    LY,
    LYC,
    DMA,
    BGP,
    OBP0,
    OBP1,
    WY,
    WX,
}

impl PPUMemory {
    /// The register's bus address.
    pub open spec fn spec_addr(self) -> u16 {
        match self {
            PPUMemory::LCDC => 0xFF40,
            PPUMemory::STAT => 0xFF41,
            PPUMemory::SCY => 0xFF42,
            PPUMemory::SCX => 0xFF43,
            PPUMemory::LY => 0xFF44,
            PPUMemory::LYC => 0xFF45,
            PPUMemory::DMA => 0xFF46,
            PPUMemory::BGP => 0xFF47,
            PPUMemory::OBP0 => 0xFF48,
            PPUMemory::OBP1 => 0xFF49,
            PPUMemory::WY => 0xFF4A,
            PPUMemory::WX => 0xFF4B,
        }
    }

    /// The register's bus address.
    pub fn addr(self) -> (r: u16)
        ensures
            r == self.spec_addr(),
    {
        match self {
            PPUMemory::LCDC => 0xFF40,
            PPUMemory::STAT => 0xFF41,
            PPUMemory::SCY => 0xFF42,
            PPUMemory::SCX => 0xFF43,
            PPUMemory::LY => 0xFF44,
            PPUMemory::LYC => 0xFF45,
            PPUMemory::DMA => 0xFF46,
            PPUMemory::BGP => 0xFF47,
            PPUMemory::OBP0 => 0xFF48,
            PPUMemory::OBP1 => 0xFF49,
            PPUMemory::WY => 0xFF4A,
            PPUMemory::WX => 0xFF4B,
        }
    }
}

/// The four PPU phases.
#[derive(Clone, Copy, PartialEq, Eq, Structural, Debug)]
pub enum PPUMode {
    HBlank,
    VBlank,
    OAM,
    VRAM,
}

/// The bit positions within the LCDC register.
#[derive(Clone, Copy, PartialEq, Eq, Structural, Debug)]
pub enum LCDCBits {
    BackgroundWindowEnable,
    ObjectDisplayEnable,
    ObjectDisplaySize,
    BackgroundTileMapArea,
    BackgroundAndWindowTileDataSelect,
    WindowDisplayEnable,
    WindowTileMapDisplaySelect,
    LCDDisplayEnable,
}

impl LCDCBits {
    /// The bit index of this LCDC field.
    pub open spec fn spec_bit(self) -> u8 {
        match self {
            LCDCBits::BackgroundWindowEnable => 0,
            LCDCBits::ObjectDisplayEnable => 1,
            LCDCBits::ObjectDisplaySize => 2,
            LCDCBits::BackgroundTileMapArea => 3,
            LCDCBits::BackgroundAndWindowTileDataSelect => 4,
            LCDCBits::WindowDisplayEnable => 5,
            LCDCBits::WindowTileMapDisplaySelect => 6,
            LCDCBits::LCDDisplayEnable => 7,
        }
    }

    /// The bit index of this LCDC field.
    pub fn bit(self) -> (r: u8)
        ensures
            r == self.spec_bit(),
    {
        match self {
            LCDCBits::BackgroundWindowEnable => 0,
            LCDCBits::ObjectDisplayEnable => 1,
            LCDCBits::ObjectDisplaySize => 2,
            LCDCBits::BackgroundTileMapArea => 3,
            LCDCBits::BackgroundAndWindowTileDataSelect => 4,
            LCDCBits::WindowDisplayEnable => 5,
            LCDCBits::WindowTileMapDisplaySelect => 6,
            LCDCBits::LCDDisplayEnable => 7,
        }
    }
}

/// The 2-bit color index the background holds at screen column `x` of
/// scanline `ly`: scroll, tile map lookup, and 2-bits-per-pixel tile
/// data, as the bus currently holds them.
pub open spec fn spec_bg_color_index(m: MemV, ly: u8, x: int) -> u8 {
    let lcdc = m.read(0xFF40);
    let tile_map_base: int = if (lcdc >> 3u8) & 1 == 0 {
        0x9800
    } else {
        0x9C00
    };
    let signed_data = (lcdc >> 4u8) & 1 == 0;
    let scx = m.read(0xFF43);
    let scy = m.read(0xFF42);
    let bg_x = (x + scx) % 256;
    let bg_y = (ly + scy) % 256;
    let tile_index = m.read((tile_map_base + (bg_y / 8) * 32 + bg_x / 8) as u16);
    let tile_data_address: int = if !signed_data {
        0x8000 + tile_index * 16
    } else {
        0x9000 + (tile_index as i8) * 16
    };
    let line = bg_y % 8;
    let b1 = m.read((tile_data_address + line * 2) as u16);
    let b2 = m.read((tile_data_address + line * 2 + 1) as u16);
    let bit = (7 - bg_x % 8) as u8;
    let lo = (b1 >> bit) & 1;
    let hi = (b2 >> bit) & 1;
    (hi << 1u8) | lo
}

/// The shade that the background shows at screen column `x` of scanline
/// `ly`: its color index through the BGP palette.
pub open spec fn spec_bg_pixel(m: MemV, ly: u8, x: int) -> u8 {
    spec_palette_shade(m.read(0xFF47), spec_bg_color_index(m, ly, x))
}

/// The 2-bit color index the window holds at screen column `x` of
/// scanline `ly`. The window's own tile map applies; its origin on
/// screen is (WX - 7, WY).
pub open spec fn spec_win_color_index(m: MemV, ly: u8, x: int) -> u8 {
    let lcdc = m.read(0xFF40);
    let tile_map_base: int = if (lcdc >> 6u8) & 1 == 0 {
        0x9800
    } else {
        0x9C00
    };
    let signed_data = (lcdc >> 4u8) & 1 == 0;
    let wy = m.read(0xFF4A);
    let wx = m.read(0xFF4B);
    let win_y = ly - wy;
    let win_x = x + 7 - wx;
    let tile_index = m.read((tile_map_base + (win_y / 8) * 32 + win_x / 8) as u16);
    let tile_data_address: int = if !signed_data {
        0x8000 + tile_index * 16
    } else {
        0x9000 + (tile_index as i8) * 16
    };
    let line = win_y % 8;
    let b1 = m.read((tile_data_address + line * 2) as u16);
    let b2 = m.read((tile_data_address + line * 2 + 1) as u16);
    let bit = (7 - win_x % 8) as u8;
    let lo = (b1 >> bit) & 1;
    let hi = (b2 >> bit) & 1;
    (hi << 1u8) | lo
}

/// The shade that the window shows at screen column `x` of scanline
/// `ly`: its color index through the BGP palette.
pub open spec fn spec_win_pixel(m: MemV, ly: u8, x: int) -> u8 {
    spec_palette_shade(m.read(0xFF47), spec_win_color_index(m, ly, x))
}

/// Map a 2-bit color index through an 8-bit palette byte to a shade.
pub open spec fn spec_palette_shade(palette: u8, color_index: u8) -> u8 {
    let v = (palette >> ((color_index * 2) as u8)) & 0x03;
    if v == 0 {
        COLOR_WHITE
    } else if v == 1 {
        COLOR_LIGHT_GRAY
    } else if v == 2 {
        COLOR_DARK_GRAY
    } else {
        COLOR_BLACK
    }
}

/// Whether the window covers screen column `x` of scanline `ly`.
pub open spec fn spec_win_covers(m: MemV, ly: u8, x: int) -> bool {
    ly >= m.read(0xFF4A) && x + 7 >= m.read(0xFF4B)
}

/// The background-and-window color index the scanline shows at column
/// `x`: the window's where it covers and is enabled, else the
/// background's where it is enabled, else 0.
pub open spec fn spec_bg_index_at(m: MemV, ly: u8, x: int) -> u8 {
    let lcdc = m.read(0xFF40);
    if lcdc & 0x20 != 0 && spec_win_covers(m, ly, x) {
        spec_win_color_index(m, ly, x)
    } else if lcdc & 0x01 != 0 {
        spec_bg_color_index(m, ly, x)
    } else {
        0
    }
}

/// The framebuffer after the background pass over scanline `ly`.
pub open spec fn spec_draw_bg(m: MemV, fb: Seq<u8>, ly: u8) -> Seq<u8> {
    Seq::new(
        fb.len(),
        |i: int|
            if ly * 160 <= i < ly * 160 + 160 {
                spec_bg_pixel(m, ly, i - ly * 160)
            } else {
                fb[i]
            },
    )
}

/// The framebuffer after the window pass over scanline `ly`: covered
/// columns are overwritten, the rest keep their background shade.
pub open spec fn spec_draw_win(m: MemV, fb: Seq<u8>, ly: u8) -> Seq<u8> {
    Seq::new(
        fb.len(),
        |i: int|
            if ly * 160 <= i < ly * 160 + 160 && spec_win_covers(m, ly, i - ly * 160) {
                spec_win_pixel(m, ly, i - ly * 160)
            } else {
                fb[i]
            },
    )
}

/// Sprite height under the given LCDC: 16 when bit 2 is set, else 8.
pub open spec fn spec_obj_height(lcdc: u8) -> int {
    if lcdc & 0x04 != 0 {
        16
    } else {
        8
    }
}

/// OAM byte 0 of sprite `idx`: its Y position (screen row plus 16).
pub open spec fn spec_oam_y(m: MemV, idx: int) -> u8 {
    m.read((0xFE00 + idx * 4) as u16)
}

/// OAM byte 1 of sprite `idx`: its X position (screen column plus 8).
pub open spec fn spec_oam_x(m: MemV, idx: int) -> u8 {
    m.read((0xFE01 + idx * 4) as u16)
}

/// OAM byte 2 of sprite `idx`: its tile number.
pub open spec fn spec_oam_tile(m: MemV, idx: int) -> u8 {
    m.read((0xFE02 + idx * 4) as u16)
}

/// OAM byte 3 of sprite `idx`: its attribute flags.
pub open spec fn spec_oam_flags(m: MemV, idx: int) -> u8 {
    m.read((0xFE03 + idx * 4) as u16)
}

/// Whether sprite `idx` covers scanline `ly` vertically.
pub open spec fn spec_sprite_covers_line(m: MemV, ly: u8, idx: int) -> bool {
    spec_oam_y(m, idx) - 16 <= ly < spec_oam_y(m, idx) - 16 + spec_obj_height(m.read(0xFF40))
}

/// The OAM indices the scanline shows out of the first `n` entries: the
/// first ten sprites, in OAM order, that cover it vertically.
pub open spec fn spec_selected(m: MemV, ly: u8, n: int) -> Seq<u8>
    decreases n,
{
    if n <= 0 {
        Seq::empty()
    } else {
        let prev = spec_selected(m, ly, n - 1);
        if prev.len() < 10 && spec_sprite_covers_line(m, ly, n - 1) {
            prev.push((n - 1) as u8)
        } else {
            prev
        }
    }
}

/// Whether sprite `idx` covers screen column `x`.
pub open spec fn spec_sprite_covers_column(m: MemV, idx: int, x: int) -> bool {
    spec_oam_x(m, idx) - 8 <= x < spec_oam_x(m, idx)
}

/// The 2-bit color index of sprite `idx` at scanline `ly`, column `x`,
/// honoring the X- and Y-flip flags; 0 is transparent. In 8x16 mode the
/// tile's low bit is cleared and the row picks the half.
pub open spec fn spec_sprite_color_index(m: MemV, ly: u8, idx: int, x: int) -> u8 {
    let flags = spec_oam_flags(m, idx);
    let h = spec_obj_height(m.read(0xFF40));
    let col0 = x - (spec_oam_x(m, idx) - 8);
    let col: int = if flags & 0x20 != 0 {
        7 - col0
    } else {
        col0
    };
    let row0 = ly - (spec_oam_y(m, idx) - 16);
    let row: int = if flags & 0x40 != 0 {
        h - 1 - row0
    } else {
        row0
    };
    let tile: u8 = if h == 16 {
        spec_oam_tile(m, idx) & 0xFE
    } else {
        spec_oam_tile(m, idx)
    };
    let b1 = m.read((0x8000 + tile * 16 + row * 2) as u16);
    let b2 = m.read((0x8000 + tile * 16 + row * 2 + 1) as u16);
    (((b2 >> ((7 - col) as u8)) & 1) << 1u8) | ((b1 >> ((7 - col) as u8)) & 1)
}

/// Whether sprite `idx` shows at column `x`: it covers the column, its
/// pixel is opaque, and a sprite flagged behind the background shows
/// only where the background-and-window color index is 0.
pub open spec fn spec_sprite_shows(m: MemV, ly: u8, idx: int, x: int) -> bool {
    &&& spec_sprite_covers_column(m, idx, x)
    &&& spec_sprite_color_index(m, ly, idx, x) != 0
    &&& (spec_oam_flags(m, idx) & 0x80 == 0 || spec_bg_index_at(m, ly, x) == 0)
}

/// The shade sprite `idx` shows at (`x`, `ly`): its color index through
/// OBP1 or OBP0 per its palette flag.
pub open spec fn spec_sprite_shade(m: MemV, ly: u8, idx: int, x: int) -> u8 {
    let pal: u8 = if spec_oam_flags(m, idx) & 0x10 != 0 {
        m.read(0xFF49)
    } else {
        m.read(0xFF48)
    };
    spec_palette_shade(pal, spec_sprite_color_index(m, ly, idx, x))
}

/// The sprite that wins column `x` among the first `k` selected ones: of
/// those that show, the one with the smallest X; ties go to the lowest
/// OAM index.
pub open spec fn spec_winner(m: MemV, ly: u8, x: int, sel: Seq<u8>, k: int) -> Option<u8>
    decreases k,
{
    if k <= 0 {
        Option::None
    } else {
        let prev = spec_winner(m, ly, x, sel, k - 1);
        let cand = sel[k - 1];
        if spec_sprite_shows(m, ly, cand as int, x) {
            match prev {
                Option::None => Option::Some(cand),
                Option::Some(w) => if spec_oam_x(m, cand as int) < spec_oam_x(m, w as int) {
                    Option::Some(cand)
                } else {
                    Option::Some(w)
                },
            }
        } else {
            prev
        }
    }
}

/// The framebuffer after the sprite pass over scanline `ly`: each column
/// the winning sprite covers takes its shade; the rest keep theirs.
pub open spec fn spec_draw_sprites(m: MemV, fb: Seq<u8>, ly: u8) -> Seq<u8> {
    let sel = spec_selected(m, ly, 40);
    Seq::new(
        fb.len(),
        |i: int|
            if ly * 160 <= i < ly * 160 + 160 {
                match spec_winner(m, ly, i - ly * 160, sel, sel.len() as int) {
                    Option::Some(idx) => spec_sprite_shade(m, ly, idx as int, i - ly * 160),
                    Option::None => fb[i],
                }
            } else {
                fb[i]
            },
    )
}

/// Every selected sprite index is a valid OAM index that covers the line.
pub proof fn lemma_selected_covers(m: MemV, ly: u8, n: int)
    requires
        0 <= n <= 40,
    ensures
        forall|j: int|
            0 <= j < spec_selected(m, ly, n).len() ==> 0 <= (
            #[trigger] spec_selected(m, ly, n)[j]) < n && spec_sprite_covers_line(
                m,
                ly,
                spec_selected(m, ly, n)[j] as int,
            ),
    decreases n,
{
    if n > 0 {
        lemma_selected_covers(m, ly, n - 1);
        let prev = spec_selected(m, ly, n - 1);
        let cur = spec_selected(m, ly, n);
        assert forall|j: int|
            0 <= j < cur.len() implies 0 <= (cur[j]) < n && spec_sprite_covers_line(
            m,
            ly,
            cur[j] as int,
        ) by {
            if j < prev.len() {
                assert(cur[j] == prev[j]);
            }
        }
    }
}

/// A winner was selected and shows at its column.
pub proof fn lemma_winner_shows(m: MemV, ly: u8, x: int, sel: Seq<u8>, k: int)
    requires
        0 <= k <= sel.len(),
    ensures
        spec_winner(m, ly, x, sel, k) matches Option::Some(w) ==> (exists|j: int|
            0 <= j < k && sel[j] == w) && spec_sprite_shows(m, ly, w as int, x),
    decreases k,
{
    if k > 0 {
        lemma_winner_shows(m, ly, x, sel, k - 1);
    }
}

/// The framebuffer after rendering scanline `ly`: nothing when the LCD is
/// off or the line is outside the screen; otherwise the background pass
/// when LCDC bit 0 enables it, the window pass when bit 5 does, and the
/// sprite pass when bit 1 does.
pub open spec fn spec_draw_scanline(m: MemV, fb: Seq<u8>, ly: u8) -> Seq<u8> {
    let lcdc = m.read(0xFF40);
    if ly >= 144 || lcdc & 0x80 == 0 {
        fb
    } else {
        let fb1: Seq<u8> = if lcdc & 0x01 != 0 {
            spec_draw_bg(m, fb, ly)
        } else {
            fb
        };
        let fb2: Seq<u8> = if lcdc & 0x20 != 0 {
            spec_draw_win(m, fb1, ly)
        } else {
            fb1
        };
        if lcdc & 0x02 != 0 {
            spec_draw_sprites(m, fb2, ly)
        } else {
            fb2
        }
    }
}

/// The scanline machine proper: the next mode, the next cycle
/// accumulator, the next framebuffer, and the next bus, before the STAT
/// register is refreshed.
pub open spec fn spec_ppu_advance(
    mode: PPUMode,
    cc0: u32,
    fb: Seq<u8>,
    m: MemV,
    cycles: u32,
) -> (PPUMode, u32, Seq<u8>, MemV) {
    let ly = m.read(0xFF44);
    let cc = cc0 + cycles;
    match mode {
        PPUMode::OAM => if cc >= 80 {
            (PPUMode::VRAM, (cc - 80) as u32, fb, m)
        } else {
            (PPUMode::OAM, cc as u32, fb, m)
        },
        PPUMode::VRAM => if cc >= 172 {
            (
                PPUMode::HBlank,
                (cc - 172) as u32,
                if m.read(0xFF40) & 0x80 != 0 {
                    spec_draw_scanline(m, fb, ly)
                } else {
                    fb
                },
                m,
            )
        } else {
            (PPUMode::VRAM, cc as u32, fb, m)
        },
        PPUMode::HBlank => if cc >= 204 {
            if ly == 143 {
                (
                    PPUMode::VBlank,
                    (cc - 204) as u32,
                    fb,
                    m.write(0xFF0F, m.read(0xFF0F) | 0x01).write(0xFF44, wrap8(ly + 1)),
                )
            } else {
                (PPUMode::OAM, (cc - 204) as u32, fb, m.write(0xFF44, wrap8(ly + 1)))
            }
        } else {
            (PPUMode::HBlank, cc as u32, fb, m)
        },
        PPUMode::VBlank => if cc >= 456 {
            if ly == 153 {
                (PPUMode::OAM, (cc - 456) as u32, fb, m.write(0xFF44, 0))
            } else {
                (PPUMode::VBlank, (cc - 456) as u32, fb, m.write(0xFF44, wrap8(ly + 1)))
            }
        } else {
            (PPUMode::VBlank, cc as u32, fb, m)
        },
    }
}

/// The STAT mode field for each phase: HBlank 0, VBlank 1, OAM 2,
/// VRAM 3.
pub open spec fn spec_mode_bits(mode: PPUMode) -> u8 {
    match mode {
        PPUMode::HBlank => 0,
        PPUMode::VBlank => 1,
        PPUMode::OAM => 2,
        PPUMode::VRAM => 3,
    }
}

/// The STAT byte after the PPU refreshes its read-only low bits: the
/// current mode in bits 1:0 and the LYC==LY coincidence flag in bit 2;
/// the interrupt-enable bits above them are kept as written.
pub open spec fn spec_stat_value(stat: u8, mode: PPUMode, ly: u8, lyc: u8) -> u8 {
    (stat & 0xF8) | spec_mode_bits(mode) | (if ly == lyc {
        4u8
    } else {
        0u8
    })
}

/// One advance of the scanline machine: the next mode, the next cycle
/// accumulator, the next framebuffer, and the next bus, with STAT's
/// mode and coincidence bits refreshed from the new state.
pub open spec fn spec_ppu_update(
    mode: PPUMode,
    cc0: u32,
    fb: Seq<u8>,
    m: MemV,
    cycles: u32,
) -> (PPUMode, u32, Seq<u8>, MemV) {
    let r = spec_ppu_advance(mode, cc0, fb, m, cycles);
    let m1 = r.3;
    (
        r.0,
        r.1,
        r.2,
        m1.write(
            0xFF41,
            spec_stat_value(m1.read(0xFF41), r.0, m1.read(0xFF44), m1.read(0xFF45)),
        ),
    )
}

/// Map a 2-bit color index through a palette byte to a shade.
fn palette_shade(palette: u8, color_index: u8) -> (r: u8)
    requires
        color_index < 4,
    ensures
        r == spec_palette_shade(palette, color_index),
{
    let v = (palette >> (color_index * 2)) & 0x03;
    if v == 0 {
        COLOR_WHITE
    } else if v == 1 {
        COLOR_LIGHT_GRAY
    } else if v == 2 {
        COLOR_DARK_GRAY
    } else {
        COLOR_BLACK
    }
}

/// The 2-bit color index of sprite `idx` at the given scanline and
/// column, honoring the flip flags.
fn sprite_color_index(mmu: &MMU, lcdc: u8, scanline: u8, idx: u8, x: usize) -> (r: u8)
    requires
        mmu.inv(),
        idx < 40,
        x < 160,
        lcdc == mmu@.read(0xFF40),
        spec_sprite_covers_line(mmu@, scanline, idx as int),
        spec_sprite_covers_column(mmu@, idx as int, x as int),
    ensures
        r == spec_sprite_color_index(mmu@, scanline, idx as int, x as int),
        r < 4,
{
    let sy = mmu.read_byte(0xFE00 + (idx as u16) * 4);
    let sx = mmu.read_byte(0xFE01 + (idx as u16) * 4);
    let tile = mmu.read_byte(0xFE02 + (idx as u16) * 4);
    let flags = mmu.read_byte(0xFE03 + (idx as u16) * 4);
    let height: i32 = if lcdc & 0x04 != 0 {
        16
    } else {
        8
    };
    let col0: i32 = (x as i32) - ((sx as i32) - 8);
    let col: i32 = if flags & 0x20 != 0 {
        7 - col0
    } else {
        col0
    };
    let row0: i32 = (scanline as i32) - ((sy as i32) - 16);
    let row: i32 = if flags & 0x40 != 0 {
        height - 1 - row0
    } else {
        row0
    };
    let t: u8 = if height == 16 {
        tile & 0xFE
    } else {
        tile
    };
    let addr: u16 = 0x8000 + (t as u16) * 16 + (row as u16) * 2;
    let b1 = mmu.read_byte(addr);
    let b2 = mmu.read_byte(addr + 1);
    let bit: u8 = (7 - col) as u8;
    let lo = (b1 >> bit) & 1;
    let hi = (b2 >> bit) & 1;
    proof {
        assert((hi << 1u8) | lo < 4) by (bit_vector)
            requires
                lo == (b1 >> bit) & 1,
                hi == (b2 >> bit) & 1,
        ;
    }
    (hi << 1) | lo
}

/// The background color index at column `x` of scanline `ly`.
fn bg_color_index(mmu: &MMU, scanline: u8, x: usize) -> (r: u8)
    requires
        mmu.inv(),
        x < 160,
        scanline < 144,
    ensures
        r == spec_bg_color_index(mmu@, scanline, x as int),
        r < 4,
{
    let lcdc = mmu.read_byte(0xFF40);
    let tile_map_base: u16 = if (lcdc >> 3) & 1 == 0 {
        0x9800
    } else {
        0x9C00
    };
    let scx = mmu.read_byte(0xFF43);
    let scy = mmu.read_byte(0xFF42);
    let bg_x: u16 = ((x as u16) + (scx as u16)) % 256;
    let bg_y: u16 = ((scanline as u16) + (scy as u16)) % 256;
    let tile_index = mmu.read_byte(tile_map_base + (bg_y / 8) * 32 + bg_x / 8);
    let tile_data_address: u16 = if (lcdc >> 4) & 1 != 0 {
        0x8000 + (tile_index as u16) * 16
    } else {
        (0x9000i32 + (tile_index as i8 as i32) * 16) as u16
    };
    let line: u16 = bg_y % 8;
    let b1 = mmu.read_byte(tile_data_address + line * 2);
    let b2 = mmu.read_byte(tile_data_address + line * 2 + 1);
    let bit: u8 = (7 - bg_x % 8) as u8;
    let lo = (b1 >> bit) & 1;
    let hi = (b2 >> bit) & 1;
    proof {
        assert((hi << 1u8) | lo < 4) by (bit_vector)
            requires
                lo == (b1 >> bit) & 1,
                hi == (b2 >> bit) & 1,
        ;
    }
    (hi << 1) | lo
}

/// The window color index at column `x` of scanline `ly`; the window
/// must cover the column.
fn win_color_index(mmu: &MMU, scanline: u8, x: usize) -> (r: u8)
    requires
        mmu.inv(),
        x < 160,
        scanline < 144,
        spec_win_covers(mmu@, scanline, x as int),
    ensures
        r == spec_win_color_index(mmu@, scanline, x as int),
        r < 4,
{
    let lcdc = mmu.read_byte(0xFF40);
    let wy = mmu.read_byte(0xFF4A);
    let wx = mmu.read_byte(0xFF4B);
    let tile_map_base: u16 = if (lcdc >> 6) & 1 == 0 {
        0x9800
    } else {
        0x9C00
    };
    let win_y: u16 = (scanline as u16) - (wy as u16);
    let win_x: u16 = (x as u16) + 7 - (wx as u16);
    let tile_index = mmu.read_byte(tile_map_base + (win_y / 8) * 32 + win_x / 8);
    let tile_data_address: u16 = if (lcdc >> 4) & 1 != 0 {
        0x8000 + (tile_index as u16) * 16
    } else {
        (0x9000i32 + (tile_index as i8 as i32) * 16) as u16
    };
    let line: u16 = win_y % 8;
    let b1 = mmu.read_byte(tile_data_address + line * 2);
    let b2 = mmu.read_byte(tile_data_address + line * 2 + 1);
    let bit: u8 = (7 - win_x % 8) as u8;
    let lo = (b1 >> bit) & 1;
    let hi = (b2 >> bit) & 1;
    proof {
        assert((hi << 1u8) | lo < 4) by (bit_vector)
            requires
                lo == (b1 >> bit) & 1,
                hi == (b2 >> bit) & 1,
        ;
    }
    (hi << 1) | lo
}

/// The background-and-window color index the scanline shows at column
/// `x` -- what a behind-background sprite is tested against.
fn background_index(mmu: &MMU, scanline: u8, x: usize) -> (r: u8)
    requires
        mmu.inv(),
        x < 160,
        scanline < 144,
    ensures
        r == spec_bg_index_at(mmu@, scanline, x as int),
        r < 4,
{
    let lcdc = mmu.read_byte(0xFF40);
    let wy = mmu.read_byte(0xFF4A);
    let wx = mmu.read_byte(0xFF4B);
    if lcdc & 0x20 != 0 && !(scanline < wy || (x as u16) + 7 < (wx as u16)) {
        win_color_index(mmu, scanline, x)
    } else if lcdc & 0x01 != 0 {
        bg_color_index(mmu, scanline, x)
    } else {
        0
    }
}

/// The scanline PPU.
pub struct PPU {
    /// 160 x 144 grayscale pixels, row-major.
    pub framebuffer: Vec<u8>,
    /// The current phase of the scanline machine.
    pub current_mode: PPUMode,
    /// T-cycles accumulated inside the current phase.
    pub current_cycles: u32,
}

impl PPU {
    /// Well-formedness: a full-size framebuffer and a cycle accumulator
    /// that never runs past the current phase's budget.
    pub open spec fn inv(self) -> bool {
        &&& self.framebuffer@.len() == 23040
        &&& match self.current_mode {
            PPUMode::OAM => self.current_cycles < 80,
            PPUMode::VRAM => self.current_cycles < 172,
            PPUMode::HBlank => self.current_cycles < 204,
            PPUMode::VBlank => self.current_cycles < 456,
        }
    }

    /// A fresh PPU: white screen, OAM phase, empty accumulator.
    pub fn new() -> (p: PPU)
        ensures
            p.inv(),
            p.framebuffer@ == Seq::new(23040nat, |i: int| 0xFFu8),
            p.current_mode == PPUMode::OAM,
            p.current_cycles == 0,
    {
        let framebuffer: Vec<u8> = vec![0xFF; 23040];
        proof {
            assert(framebuffer@ =~= Seq::new(23040nat, |i: int| 0xFFu8));
        }
        PPU { framebuffer, current_mode: PPUMode::OAM, current_cycles: 0 }
    }

    /// Render scanline `scanline` into the framebuffer when the LCD is on
    /// and the line is on screen: the background pass, the window pass,
    /// then the sprite pass, each under its LCDC enable bit.
    pub fn draw_scanline(&mut self, mmu: &MMU, scanline: u8)
        requires
            old(self).inv(),
            mmu.inv(),
        ensures
            final(self).framebuffer@ == spec_draw_scanline(mmu@, old(self).framebuffer@, scanline),
            final(self).current_mode == old(self).current_mode,
            final(self).current_cycles == old(self).current_cycles,
            final(self).inv(),
    {
        let lcdc = mmu.read_byte(0xFF40);
        if scanline >= 144 || lcdc & 0x80 == 0 {
            proof {
                assert(self.framebuffer@ =~= spec_draw_scanline(
                    mmu@,
                    old(self).framebuffer@,
                    scanline,
                ));
            }
            return ;
        }
        if lcdc & 0x01 != 0 {
            self.draw_background_scanline(mmu, scanline);
        }
        if lcdc & 0x20 != 0 {
            self.draw_window_scanline(mmu, scanline);
        }
        if lcdc & 0x02 != 0 {
            self.draw_sprites_scanline(mmu, scanline);
        }
        proof {
            assert(self.framebuffer@ =~= spec_draw_scanline(
                mmu@,
                old(self).framebuffer@,
                scanline,
            ));
        }
    }

    /// The background pass: every column of the scanline gets its shade
    /// from the scrolled tile map.
    pub fn draw_background_scanline(&mut self, mmu: &MMU, scanline: u8)
        requires
            old(self).inv(),
            mmu.inv(),
            scanline < 144,
        ensures
            final(self).framebuffer@ == spec_draw_bg(mmu@, old(self).framebuffer@, scanline),
            final(self).current_mode == old(self).current_mode,
            final(self).current_cycles == old(self).current_cycles,
            final(self).inv(),
    {
        let row_base: usize = (scanline as usize) * 160;
        let mut x: usize = 0;
        while x < 160
            invariant
                old(self).inv(),
                mmu.inv(),
                scanline < 144,
                row_base == scanline * 160,
                x <= 160,
                self.current_mode == old(self).current_mode,
                self.current_cycles == old(self).current_cycles,
                self.framebuffer@.len() == 23040,
                forall|i: int|
                    0 <= i < 23040 && !(row_base <= i < row_base + x) ==> self.framebuffer@[i]
                        == old(self).framebuffer@[i],
                forall|i: int|
                    row_base <= i < row_base + x ==> self.framebuffer@[i] == spec_bg_pixel(
                        mmu@,
                        scanline,
                        i - row_base,
                    ),
            decreases 160 - x,
        {
            let ci = bg_color_index(mmu, scanline, x);
            let palette = mmu.read_byte(0xFF47);
            let color = palette_shade(palette, ci);
            self.framebuffer[row_base + x] = color;
            proof {
                assert(self.framebuffer@[row_base + x] == spec_bg_pixel(
                    mmu@,
                    scanline,
                    (row_base + x) - row_base,
                ));
            }
            x = x + 1;
        }
        proof {
            assert(self.framebuffer@ =~= spec_draw_bg(mmu@, old(self).framebuffer@, scanline));
        }
    }

    /// The window pass: columns the window covers get their shade from
    /// the window tile map; the rest of the scanline is untouched.
    pub fn draw_window_scanline(&mut self, mmu: &MMU, scanline: u8)
        requires
            old(self).inv(),
            mmu.inv(),
            scanline < 144,
        ensures
            final(self).framebuffer@ == spec_draw_win(mmu@, old(self).framebuffer@, scanline),
            final(self).current_mode == old(self).current_mode,
            final(self).current_cycles == old(self).current_cycles,
            final(self).inv(),
    {
        let row_base: usize = (scanline as usize) * 160;
        let mut x: usize = 0;
        while x < 160
            invariant
                old(self).inv(),
                mmu.inv(),
                scanline < 144,
                row_base == scanline * 160,
                x <= 160,
                self.current_mode == old(self).current_mode,
                self.current_cycles == old(self).current_cycles,
                self.framebuffer@.len() == 23040,
                forall|i: int|
                    0 <= i < 23040 && !(row_base <= i < row_base + x) ==> self.framebuffer@[i]
                        == old(self).framebuffer@[i],
                forall|i: int|
                    row_base <= i < row_base + x ==> self.framebuffer@[i] == (if spec_win_covers(
                        mmu@,
                        scanline,
                        i - row_base,
                    ) {
                        spec_win_pixel(mmu@, scanline, i - row_base)
                    } else {
                        old(self).framebuffer@[i]
                    }),
            decreases 160 - x,
        {
            let wy = mmu.read_byte(0xFF4A);
            let wx = mmu.read_byte(0xFF4B);
            if !(scanline < wy || (x as u16) + 7 < (wx as u16)) {
                let ci = win_color_index(mmu, scanline, x);
                let palette = mmu.read_byte(0xFF47);
                let color = palette_shade(palette, ci);
                self.framebuffer[row_base + x] = color;
                proof {
                    assert(self.framebuffer@[row_base + x] == spec_win_pixel(
                        mmu@,
                        scanline,
                        (row_base + x) - row_base,
                    ));
                }
            }
            x = x + 1;
        }
        proof {
            assert(self.framebuffer@ =~= spec_draw_win(mmu@, old(self).framebuffer@, scanline));
        }
    }

    /// The sprite pass: each column shows the winning sprite among the
    /// scanline's first ten covering OAM entries -- smallest X wins,
    /// ties to the lowest OAM index -- honoring transparency and the
    /// behind-background flag, which yields to any background-and-window
    /// color index other than 0.
    pub fn draw_sprites_scanline(&mut self, mmu: &MMU, scanline: u8)
        requires
            old(self).inv(),
            mmu.inv(),
            scanline < 144,
        ensures
            final(self).framebuffer@ == spec_draw_sprites(mmu@, old(self).framebuffer@, scanline),
            final(self).current_mode == old(self).current_mode,
            final(self).current_cycles == old(self).current_cycles,
            final(self).inv(),
    {
        let lcdc = mmu.read_byte(0xFF40);
        let height: i32 = if lcdc & 0x04 != 0 {
            16
        } else {
            8
        };

        let mut sel: Vec<u8> = Vec::new();
        let mut i: usize = 0;
        while i < 40
            invariant
                mmu.inv(),
                lcdc == mmu@.read(0xFF40),
                height == spec_obj_height(lcdc),
                0 <= i <= 40,
                sel@ == spec_selected(mmu@, scanline, i as int),
                sel@.len() <= 10,
            decreases 40 - i,
        {
            let sy = mmu.read_byte(0xFE00 + (i as u16) * 4);
            let top: i32 = (sy as i32) - 16;
            if sel.len() < 10 && top <= (scanline as i32) && (scanline as i32) < top + height {
                sel.push(i as u8);
            }
            i += 1;
        }

        let row_base: usize = (scanline as usize) * 160;
        let mut x: usize = 0;
        while x < 160
            invariant
                old(self).inv(),
                mmu.inv(),
                scanline < 144,
                lcdc == mmu@.read(0xFF40),
                height == spec_obj_height(lcdc),
                row_base == scanline * 160,
                x <= 160,
                sel@ == spec_selected(mmu@, scanline, 40),
                sel@.len() <= 10,
                self.current_mode == old(self).current_mode,
                self.current_cycles == old(self).current_cycles,
                self.framebuffer@.len() == 23040,
                forall|j: int|
                    0 <= j < 23040 && !(row_base <= j < row_base + x) ==> self.framebuffer@[j]
                        == old(self).framebuffer@[j],
                forall|j: int|
                    row_base <= j < row_base + x ==> self.framebuffer@[j] == (
                    match spec_winner(
                        mmu@,
                        scanline,
                        j - row_base,
                        sel@,
                        sel@.len() as int,
                    ) {
                        Option::Some(idx) => spec_sprite_shade(
                            mmu@,
                            scanline,
                            idx as int,
                            j - row_base,
                        ),
                        Option::None => old(self).framebuffer@[j],
                    }),
            decreases 160 - x,
        {
            proof {
                lemma_selected_covers(mmu@, scanline, 40);
            }
            let mut best: Option<u8> = None;
            let mut k: usize = 0;
            while k < sel.len()
                invariant
                    mmu.inv(),
                    lcdc == mmu@.read(0xFF40),
                    height == spec_obj_height(lcdc),
                    scanline < 144,
                    x < 160,
                    sel@.len() <= 10,
                    0 <= k <= sel@.len(),
                    forall|j: int|
                        0 <= j < sel@.len() ==> 0 <= (#[trigger] sel@[j]) < 40
                            && spec_sprite_covers_line(mmu@, scanline, sel@[j] as int),
                    best == spec_winner(mmu@, scanline, x as int, sel@, k as int),
                decreases sel@.len() - k,
            {
                proof {
                    lemma_winner_shows(mmu@, scanline, x as int, sel@, k as int);
                }
                let idx = sel[k];
                let sx = mmu.read_byte(0xFE01 + (idx as u16) * 4);
                let left: i32 = (sx as i32) - 8;
                let mut shows = false;
                if left <= (x as i32) && (x as i32) < (sx as i32) {
                    let ci = sprite_color_index(mmu, lcdc, scanline, idx, x);
                    if ci != 0 {
                        let flags = mmu.read_byte(0xFE03 + (idx as u16) * 4);
                        if flags & 0x80 == 0 {
                            shows = true;
                        } else {
                            shows = background_index(mmu, scanline, x) == 0;
                        }
                    }
                }
                if shows {
                    best = match best {
                        None => Some(idx),
                        Some(w) => {
                            let wx = mmu.read_byte(0xFE01 + (w as u16) * 4);
                            if sx < wx {
                                Some(idx)
                            } else {
                                Some(w)
                            }
                        },
                    };
                }
                k += 1;
            }
            proof {
                lemma_winner_shows(mmu@, scanline, x as int, sel@, sel@.len() as int);
            }
            match best {
                Some(idx) => {
                    let ci = sprite_color_index(mmu, lcdc, scanline, idx, x);
                    let flags = mmu.read_byte(0xFE03 + (idx as u16) * 4);
                    let pal = if flags & 0x10 != 0 {
                        mmu.read_byte(0xFF49)
                    } else {
                        mmu.read_byte(0xFF48)
                    };
                    let shade = palette_shade(pal, ci);
                    self.framebuffer[row_base + x] = shade;
                },
                None => {},
            }
            x = x + 1;
        }
        proof {
            assert(self.framebuffer@ =~= spec_draw_sprites(
                mmu@,
                old(self).framebuffer@,
                scanline,
            ));
        }
    }

    /// Advance the scanline machine by one instruction's T-cycles.
    ///
    /// Each phase ends once its cycle budget is reached, the excess
    /// carrying over: OAM at 80 cycles, VRAM at 172 (rendering the
    /// scanline on exit when the LCD is on), HBlank at 204 (on exit LY
    /// rises; at LY 143 the VBlank interrupt is requested and VBlank
    /// begins), and each VBlank line at 456 (after line 153, LY returns
    /// to 0 and OAM begins). STAT's mode and LYC==LY coincidence bits
    /// are refreshed from the new state.
    pub fn update(&mut self, mmu: &mut MMU, cycles: u32)
        requires
            old(self).inv(),
            old(mmu).inv(),
            cycles <= 24,
        ensures
            final(self).inv(),
            final(mmu).inv(),
            ({
                let s = spec_ppu_update(
                    old(self).current_mode,
                    old(self).current_cycles,
                    old(self).framebuffer@,
                    old(mmu)@,
                    cycles,
                );
                &&& final(self).current_mode == s.0
                &&& final(self).current_cycles == s.1
                &&& final(self).framebuffer@ == s.2
                &&& final(mmu)@ == s.3
            }),
            final(mmu).div_cycles == 0 || final(mmu).div_cycles == old(mmu).div_cycles,
            final(mmu).tima_cycles == old(mmu).tima_cycles,
    {
        let scanline = mmu.read_byte(0xFF44);
        self.current_cycles = self.current_cycles + cycles;

        match self.current_mode {
            PPUMode::OAM => {
                if self.current_cycles >= 80 {
                    self.current_cycles = self.current_cycles - 80;
                    self.current_mode = PPUMode::VRAM;
                }
            },
            PPUMode::VRAM => {
                if self.current_cycles >= 172 {
                    self.current_cycles = self.current_cycles - 172;
                    self.current_mode = PPUMode::HBlank;
                    let lcdc = mmu.read_byte(0xFF40);
                    if lcdc & 0x80 != 0 {
                        self.draw_scanline(mmu, scanline);
                    }
                }
            },
            PPUMode::HBlank => {
                if self.current_cycles >= 204 {
                    self.current_cycles = self.current_cycles - 204;
                    if scanline == 143 {
                        let iflag = mmu.read_byte(0xFF0F);
                        mmu.write_byte(0xFF0F, iflag | 0x01);
                        mmu.write_byte(0xFF44, scanline.wrapping_add(1));
                        self.current_mode = PPUMode::VBlank;
                    } else {
                        mmu.write_byte(0xFF44, scanline.wrapping_add(1));
                        self.current_mode = PPUMode::OAM;
                    }
                }
            },
            PPUMode::VBlank => {
                if self.current_cycles >= 456 {
                    if scanline == 153 {
                        mmu.write_byte(0xFF44, 0);
                        self.current_mode = PPUMode::OAM;
                    } else {
                        mmu.write_byte(0xFF44, scanline.wrapping_add(1));
                    }
                    self.current_cycles = self.current_cycles - 456;
                }
            },
        }

        // Refresh STAT's read-only low bits from the new state.
        let stat = mmu.read_byte(0xFF41);
        let ly_after = mmu.read_byte(0xFF44);
        let lyc = mmu.read_byte(0xFF45);
        let mode_bits: u8 = match self.current_mode {
            PPUMode::HBlank => 0,
            PPUMode::VBlank => 1,
            PPUMode::OAM => 2,
            PPUMode::VRAM => 3,
        };
        let coincidence: u8 = if ly_after == lyc {
            4
        } else {
            0
        };
        mmu.write_byte(0xFF41, (stat & 0xF8) | mode_bits | coincidence);
    }
}

} // verus!
