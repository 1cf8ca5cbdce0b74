//! Laws of the machine model: what a read returns after a write, the
//! PUSH/POP and CALL/RET round trips, the single VBlank interrupt request
//! per frame, the deterministic LY sequence, the OAM DMA copy, and the
//! BIT/SET/RES inverses.

use crate::bits::{hi8, lemma_u16_bytes, lo8, word16, wrap16};
use crate::cpu::CPU;
use crate::mmu::MemV;
use crate::opcodes::spec_step;
use crate::ppu::{spec_ppu_update, PPUMode};
use vstd::prelude::*;

verus! {

/// The RAM cell that backs `addr`: echo RAM reads and writes land two
/// pages below.
pub open spec fn ram_index(addr: u16) -> int {
    if 0xE000 <= addr < 0xFE00 {
        addr - 0x2000
    } else {
        addr as int
    }
}

/// Whether a write of `addr` lands in backing RAM and a read gives it
/// back: ordinary RAM, VRAM, OAM, HRAM, and enabled external RAM, but
/// not ROM space, the joypad register, the DIV reset, or the DMA trigger.
pub open spec fn mem_writable(m: MemV, addr: u16) -> bool {
    ||| 0x8000 <= addr < 0xA000
    ||| (0xA000 <= addr < 0xC000 && m.ram_enabled)
    ||| 0xC000 <= addr < 0xFE00
    ||| (0xFE00 <= addr && addr != 0xFF00 && addr != 0xFF04 && addr != 0xFF46)
}

/// A read of a writable address after a write to it returns the byte
/// written.
pub proof fn lemma_read_after_write(m: MemV, addr: u16, v: u8)
    requires
        m.ram.len() == 0x10000,
        mem_writable(m, addr),
    ensures
        m.write(addr, v).read(addr) == v,
{
}

/// A write to a writable address leaves every read of an address backed
/// by a different RAM cell unchanged.
pub proof fn lemma_write_frame(m: MemV, addr: u16, v: u8, other: u16)
    requires
        m.ram.len() == 0x10000,
        mem_writable(m, addr),
        ram_index(other) != ram_index(addr),
    ensures
        m.write(addr, v).read(other) == m.read(other),
{
}

/// Adjacent addresses never share a backing RAM cell.
pub proof fn lemma_adjacent_distinct(addr: u16)
    ensures
        ram_index(addr) != ram_index(addr.wrapping_add(1)),
{
}

/// PUSH then POP restores the word exactly and leaves SP where it was:
/// storing a word at SP-2 and reading it back little-endian yields the
/// word, and raising the lowered stack pointer by two returns to SP.
pub proof fn lemma_push_pop_round_trip(c: CPU, m: MemV, v: u16)
    requires
        m.ram.len() == 0x10000,
        mem_writable(m, wrap16(c.sp - 2)),
        mem_writable(m, wrap16(c.sp - 1)),
    ensures
        ({
            let sp2 = wrap16(c.sp - 2);
            let m1 = m.write16(sp2, v);
            &&& m1.read16(sp2) == v
            &&& wrap16(sp2 + 2) == c.sp
        }),
{
    let sp2 = wrap16(c.sp - 2);
    let sp1 = sp2.wrapping_add(1);
    assert(sp1 == wrap16(c.sp - 1));
    lemma_adjacent_distinct(sp2);
    let m_lo = m.write(sp2, lo8(v));
    assert(mem_writable(m_lo, sp1));
    lemma_read_after_write(m, sp2, lo8(v));
    lemma_read_after_write(m_lo, sp1, hi8(v));
    lemma_write_frame(m_lo, sp1, hi8(v), sp2);
    lemma_u16_bytes();
    assert(m.write16(sp2, v).read16(sp2) == word16(hi8(v), lo8(v)));
}

/// A CALL pushes the address of the instruction after it -- the PC has
/// already advanced past the three CALL bytes when the push happens --
/// and jumps to its immediate argument.
pub proof fn lemma_call_pushes_return_address(c: CPU, m: MemV)
    requires
        !c.halted,
        m.ram.len() == 0x10000,
    ensures
        ({
            let s1 = spec_step(c, m, 0xCD);
            &&& s1.1 == m.write16(wrap16(c.sp - 2), wrap16(c.pc + 3))
            &&& s1.0.pc == m.read16(c.pc.wrapping_add(1))
            &&& s1.0.sp == wrap16(c.sp - 2)
        }),
{
    assert(0xCDu8 & 0xC7 != 0xC6 && 0xCDu8 & 0xCF != 0xC1 && 0xCDu8 & 0xCF != 0xC5 && 0xCDu8
        & 0xC7 != 0xC7 && 0xCDu8 & 0xE7 != 0xC0 && 0xCDu8 & 0xE7 != 0xC2) by (bit_vector);
}

/// Every RST pushes the address of the instruction after it -- the PC
/// has already advanced past the one RST byte -- and jumps to its
/// vector, the six bits the opcode carries.
pub proof fn lemma_rst_pushes_return_address(c: CPU, m: MemV, op: u8)
    requires
        !c.halted,
        m.ram.len() == 0x10000,
        op & 0xC7 == 0xC7,
    ensures
        ({
            let s1 = spec_step(c, m, op);
            &&& s1.1 == m.write16(wrap16(c.sp - 2), wrap16(c.pc + 1))
            &&& s1.0.pc == (op & 0x38) as u16
            &&& s1.0.sp == wrap16(c.sp - 2)
        }),
{
    assert(op != 0xCB && op >= 0xC0 && op & 0xC0 == 0xC0 && op != 0xF3 && op != 0xFB && op
        & 0xC7 != 0xC6 && op & 0xCF != 0xC1 && op & 0xCF != 0xC5 && op != 0x01 && op != 0x08
        && op != 0x11 && op != 0x21 && op != 0x31 && op != 0xC2 && op != 0xC3 && op != 0xC4
        && op != 0xCA && op != 0xCC && op != 0xCD && op != 0xD2 && op != 0xD4 && op != 0xDA
        && op != 0xDC && op != 0xEA && op != 0xFA && op != 0x06 && op != 0x0E && op != 0x16
        && op != 0x1E && op != 0x26 && op != 0x2E && op != 0x36 && op != 0x3E && op != 0x18
        && op != 0x20 && op != 0x28 && op != 0x30 && op != 0x38 && op != 0xC6 && op != 0xCE
        && op != 0xD6 && op != 0xDE && op != 0xE6 && op != 0xEE && op != 0xF6 && op != 0xFE
        && op != 0xE0 && op != 0xF0 && op != 0xE8 && op != 0xF8) by (bit_vector)
        requires
            op & 0xC7 == 0xC7,
    ;
}

/// CALL then RET returns the PC to the instruction after the CALL and
/// restores SP, provided the stack slots are backed by RAM.
pub proof fn lemma_call_ret_round_trip(c: CPU, m: MemV)
    requires
        !c.halted,
        m.ram.len() == 0x10000,
        mem_writable(m, wrap16(c.sp - 2)),
        mem_writable(m, wrap16(c.sp - 1)),
    ensures
        ({
            let s1 = spec_step(c, m, 0xCD);
            let s2 = spec_step(s1.0, s1.1, 0xC9);
            &&& s2.0.pc == wrap16(c.pc + 3)
            &&& s2.0.sp == c.sp
        }),
{
    assert(0xCDu8 & 0xC7 != 0xC6 && 0xCDu8 & 0xCF != 0xC1 && 0xCDu8 & 0xCF != 0xC5 && 0xCDu8
        & 0xC7 != 0xC7 && 0xCDu8 & 0xE7 != 0xC0 && 0xCDu8 & 0xE7 != 0xC2) by (bit_vector);
    assert(0xC9u8 & 0xC7 != 0xC6 && 0xC9u8 & 0xCF != 0xC1 && 0xC9u8 & 0xCF != 0xC5 && 0xC9u8
        & 0xC7 != 0xC7) by (bit_vector);
    lemma_push_pop_round_trip(c, m, wrap16(c.pc + 3));
}

/// The PPU requests the VBlank interrupt exactly when HBlank completes
/// on scanline 143 -- once per frame -- and never otherwise.
pub proof fn lemma_vblank_interrupt_once(
    mode: PPUMode,
    cc0: u32,
    fb: Seq<u8>,
    m: MemV,
    cycles: u32,
)
    requires
        m.ram.len() == 0x10000,
    ensures
        ({
            let p = spec_ppu_update(mode, cc0, fb, m, cycles);
            let requested = mode == PPUMode::HBlank && cc0 + cycles >= 204 && m.read(0xFF44)
                == 143;
            &&& requested ==> p.3.read(0xFF0F) == m.read(0xFF0F) | 0x01
            &&& !requested ==> p.3.read(0xFF0F) == m.read(0xFF0F)
        }),
{
}

/// Consistency between the PPU phase and the LY register: the visible
/// phases run on scanlines 0-143, VBlank on 144-153.
pub open spec fn spec_mode_ly_consistent(mode: PPUMode, m: MemV) -> bool {
    match mode {
        PPUMode::OAM | PPUMode::VRAM | PPUMode::HBlank => m.read(0xFF44) <= 143,
        PPUMode::VBlank => 144 <= m.read(0xFF44) <= 153,
    }
}

/// LY sequences deterministically: from any consistent state, one PPU
/// advance keeps LY in 0-153 and either leaves it, raises it by one, or
/// wraps 153 to 0 back into the OAM phase -- giving 0,1,...,153,0,...
pub proof fn lemma_ly_sequence(mode: PPUMode, cc0: u32, fb: Seq<u8>, m: MemV, cycles: u32)
    requires
        m.ram.len() == 0x10000,
        spec_mode_ly_consistent(mode, m),
    ensures
        ({
            let p = spec_ppu_update(mode, cc0, fb, m, cycles);
            &&& spec_mode_ly_consistent(p.0, p.3)
            &&& p.3.read(0xFF44) <= 153
            &&& (p.3.read(0xFF44) == m.read(0xFF44) || p.3.read(0xFF44) == m.read(0xFF44) + 1
                || (m.read(0xFF44) == 153 && p.3.read(0xFF44) == 0 && p.0 == PPUMode::OAM))
        }),
{
}

/// OAM DMA with source page X copies the 160 bytes at X<<8 byte-for-byte
/// into 0xFE00-0xFE9F and changes nothing else in RAM.
pub proof fn lemma_dma_copies_bytes(m: MemV, src_hi: u8, i: int)
    requires
        m.ram.len() == 0x10000,
        0 <= i < 0xA0,
    ensures
        m.dma(src_hi).ram[0xFE00 + i] == m.read((((src_hi as u16) << 8u16) + i) as u16),
        forall|j: int|
            0 <= j < 0x10000 && !(0xFE00 <= j < 0xFEA0) ==> m.dma(src_hi).ram[j] == m.ram[j],
{
}

/// BIT, SET, and RES are pointwise inverses modulo bit masking: RES
/// undoes SET on that bit and vice versa, both are idempotent, and BIT
/// reads back exactly what SET and RES left.
pub proof fn lemma_bit_set_res_inverses(v: u8, b: u8)
    by (bit_vector)
    requires
        b < 8,
    ensures
        (v | (1u8 << b)) & !(1u8 << b) == v & !(1u8 << b),
        (v & !(1u8 << b)) | (1u8 << b) == v | (1u8 << b),
        (v | (1u8 << b)) & (1u8 << b) != 0,
        (v & !(1u8 << b)) & (1u8 << b) == 0,
        (v | (1u8 << b)) | (1u8 << b) == v | (1u8 << b),
        (v & !(1u8 << b)) & !(1u8 << b) == v & !(1u8 << b),
{
}

} // verus!
