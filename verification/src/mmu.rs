//! Memory map unit: routes reads and writes across the 64 KiB address
//! space, applying the side effects of the trapped I/O addresses (joypad
//! select, DIV reset, OAM DMA, and the cartridge banking controls).

use crate::bits::{hi8, lemma_shl8, lo8, word16};
use crate::cart::{spec_select_bank, Cart};
use crate::joypad::{Joypad, JoypadV};
use vstd::prelude::*;

verus! {

/// Ghost view of the whole bus: addressable RAM, the cartridge ROM and its
/// banking state, the joypad rows, and the two timer cycle accumulators.
#[verifier::ext_equal]
pub ghost struct MemV {
    pub ram: Seq<u8>,
    pub rom: Seq<u8>,
    pub rom_bank: u8,
    pub ram_enabled: bool,
    pub jp: JoypadV,
    pub div_cycles: u32,
    pub tima_cycles: u32,
}

impl MemV {
    /// What a read of `addr` returns.
    ///
    /// 0xFF00 is the joypad; 0x0000-0x7FFF is cartridge ROM (bank 0 below
    /// 0x4000, the selected bank above); 0xA000-0xBFFF is external RAM,
    /// reading 0xFF while disabled; 0xE000-0xFDFF echoes 0xC000-0xDDFF;
    /// everything else reads the backing RAM byte.
    pub open spec fn read(self, addr: u16) -> u8 {
        if addr == 0xFF00 {
            self.jp.spec_read()
        } else if addr < 0x4000 {
            self.rom[addr as int]
        } else if addr < 0x8000 {
            self.rom[self.rom_bank as int * 0x4000 + (addr - 0x4000)]
        } else if 0xA000 <= addr < 0xC000 {
            if self.ram_enabled {
                self.ram[addr as int]
            } else {
                0xFF
            }
        } else if 0xE000 <= addr < 0xFE00 {
            self.ram[addr - 0x2000]
        } else {
            self.ram[addr as int]
        }
    }

    /// Little-endian 16-bit read.
    pub open spec fn read16(self, addr: u16) -> u16 {
        word16(self.read(addr.wrapping_add(1)), self.read(addr))
    }

    /// The OAM DMA transfer: the 160 bytes at `src_hi << 8` replace
    /// 0xFE00-0xFE9F; nothing else changes.
    pub open spec fn dma(self, src_hi: u8) -> MemV {
        MemV {
            ram: Seq::new(
                0x10000,
                |j: int|
                    if 0xFE00 <= j < 0xFEA0 {
                        self.read((((src_hi as u16) << 8u16) + (j - 0xFE00)) as u16)
                    } else {
                        self.ram[j]
                    },
            ),
            ..self
        }
    }

    /// The bus after a write of `v` to `addr`.
    ///
    /// Writes below 0x8000 are banking commands and never change ROM
    /// bytes; 0xFF00 stores the joypad select bits; 0xFF04 resets DIV and
    /// its accumulator; 0xFF46 triggers OAM DMA; external RAM writes are
    /// dropped while disabled; echo RAM writes land at `addr - 0x2000`.
    pub open spec fn write(self, addr: u16, v: u8) -> MemV {
        if addr < 0x2000 {
            MemV { ram_enabled: v & 0x0F == 0x0A, ..self }
        } else if addr < 0x4000 {
            MemV { rom_bank: spec_select_bank(v, self.rom.len() as int / 0x4000), ..self }
        } else if addr < 0x8000 {
            self
        } else if addr == 0xFF00 {
            MemV { jp: JoypadV { select: v & 0x30, ..self.jp }, ..self }
        } else if addr == 0xFF04 {
            MemV { ram: self.ram.update(0xFF04, 0), div_cycles: 0, ..self }
        } else if addr == 0xFF46 {
            self.dma(v)
        } else if 0xA000 <= addr < 0xC000 {
            if self.ram_enabled {
                MemV { ram: self.ram.update(addr as int, v), ..self }
            } else {
                self
            }
        } else if 0xE000 <= addr < 0xFE00 {
            MemV { ram: self.ram.update(addr - 0x2000, v), ..self }
        } else {
            MemV { ram: self.ram.update(addr as int, v), ..self }
        }
    }

    /// Little-endian 16-bit write: low byte first.
    pub open spec fn write16(self, addr: u16, v: u16) -> MemV {
        self.write(addr, lo8(v)).write(addr.wrapping_add(1), hi8(v))
    }
}

/// The memory map unit. It owns the addressable RAM backing 0x8000-0xFFFF
/// (the full 64 KiB vector is kept for direct indexing), the cartridge,
/// the joypad, and the two timer cycle accumulators.
pub struct MMU {
    /// Backing store for the addressable space; bytes below 0x8000 are
    /// shadowed by the cartridge ROM.
    pub ram: Vec<u8>,
    /// The cartridge.
    pub cart: Cart,
    /// The joypad.
    pub joypad: Joypad,
    /// T-cycles accumulated toward the next DIV increment.
    pub div_cycles: u32,
    /// T-cycles accumulated toward the next TIMA increment.
    pub tima_cycles: u32,
}

impl View for MMU {
    type V = MemV;

    open spec fn view(&self) -> MemV {
        MemV {
            ram: self.ram@,
            rom: self.cart.rom@,
            rom_bank: self.cart.rom_bank_selected,
            ram_enabled: self.cart.ram_enabled,
            jp: self.joypad@,
            div_cycles: self.div_cycles,
            tima_cycles: self.tima_cycles,
        }
    }
}

impl MMU {
    /// Well-formedness: full-size RAM and a well-formed cartridge. The
    /// timer accumulators are bounded separately by the timer contracts.
    pub open spec fn inv(self) -> bool {
        &&& self.ram@.len() == 0x10000
        &&& self.cart.inv()
    }

    /// A fresh bus over `cart` and `joypad`: all RAM zero except the
    /// joypad register, which reads back as all-released.
    pub fn new(cart: Cart, joypad: Joypad) -> (m: MMU)
        requires
            cart.inv(),
        ensures
            m.inv(),
            m@.ram == Seq::new(
                0x10000,
                |i: int|
                    if i == 0xFF00 {
                        0xCFu8
                    } else {
                        0u8
                    },
            ),
            m.cart == cart,
            m@.jp == joypad@,
            m@.div_cycles == 0,
            m@.tima_cycles == 0,
    {
        let mut ram: Vec<u8> = vec![0; 0x10000];
        ram[0xFF00] = 0xCF;
        proof {
            assert(ram@ =~= Seq::new(
                0x10000,
                |i: int|
                    if i == 0xFF00 {
                        0xCFu8
                    } else {
                        0u8
                    },
            ));
        }
        MMU { ram, cart, joypad, div_cycles: 0, tima_cycles: 0 }
    }

    /// Read one byte from the bus.
    pub fn read_byte(&self, addr: u16) -> (r: u8)
        requires
            self.inv(),
        ensures
            r == self@.read(addr),
    {
        if addr == 0xFF00 {
            self.joypad.read()
        } else if addr < 0x8000 {
            self.cart.read_rom(addr)
        } else if 0xA000 <= addr && addr < 0xC000 {
            if self.cart.ram_enabled {
                self.ram[addr as usize]
            } else {
                0xFF
            }
        } else if 0xE000 <= addr && addr < 0xFE00 {
            self.ram[addr as usize - 0x2000]
        } else {
            self.ram[addr as usize]
        }
    }

    /// Write one byte to the bus, applying trap side effects.
    pub fn write_byte(&mut self, addr: u16, value: u8)
        requires
            old(self).inv(),
        ensures
            final(self)@ == old(self)@.write(addr, value),
            final(self).inv(),
            final(self).div_cycles == 0 || final(self).div_cycles == old(self).div_cycles,
            final(self).tima_cycles == old(self).tima_cycles,
    {
        if addr < 0x2000 {
            self.cart.enable_ram(value);
        } else if addr < 0x4000 {
            self.cart.select_rom_bank(value);
        } else if addr < 0x8000 {
            // ROM space: banking regions above are the only commands here.
        } else if addr == 0xFF00 {
            self.joypad.write(value);
        } else if addr == 0xFF04 {
            self.ram[0xFF04] = 0;
            self.div_cycles = 0;
        } else if addr == 0xFF46 {
            self.oam_dma_transfer(value);
        } else if 0xA000 <= addr && addr < 0xC000 {
            if self.cart.ram_enabled {
                self.ram[addr as usize] = value;
            }
        } else if 0xE000 <= addr && addr < 0xFE00 {
            self.ram[addr as usize - 0x2000] = value;
        } else {
            self.ram[addr as usize] = value;
        }
    }

    /// Little-endian 16-bit read.
    pub fn read_short(&self, addr: u16) -> (r: u16)
        requires
            self.inv(),
        ensures
            r == self@.read16(addr),
    {
        let lo = self.read_byte(addr);
        let hi = self.read_byte(addr.wrapping_add(1));
        ((hi as u16) << 8u16) | (lo as u16)
    }

    /// Little-endian 16-bit write: low byte first.
    pub fn write_short(&mut self, addr: u16, value: u16)
        requires
            old(self).inv(),
        ensures
            final(self)@ == old(self)@.write16(addr, value),
            final(self).inv(),
            final(self).div_cycles == 0 || final(self).div_cycles == old(self).div_cycles,
            final(self).tima_cycles == old(self).tima_cycles,
    {
        self.write_byte(addr, (value & 0xFF) as u8);
        self.write_byte(addr.wrapping_add(1), (value >> 8) as u8);
    }

    /// Copy the 160 bytes at `source_high << 8` into OAM at 0xFE00-0xFE9F.
    /// The copy reads through the bus (so ROM or echo sources work) and
    /// completes before the call returns.
    pub fn oam_dma_transfer(&mut self, source_high: u8)
        requires
            old(self).inv(),
        ensures
            final(self)@ == old(self)@.dma(source_high),
            final(self).inv(),
            final(self).div_cycles == old(self).div_cycles,
            final(self).tima_cycles == old(self).tima_cycles,
    {
        proof {
            lemma_shl8();
        }
        let source: u16 = (source_high as u16) << 8;
        let mut i: u16 = 0;
        while i < 0xA0
            invariant
                self.cart == old(self).cart,
                self.joypad == old(self).joypad,
                self.div_cycles == old(self).div_cycles,
                self.tima_cycles == old(self).tima_cycles,
                self.inv(),
                source == (source_high as u16) * 256,
                0 <= i <= 0xA0,
                forall|j: int|
                    0 <= j < 0x10000 && !(0xFE00 <= j < 0xFE00 + i) ==> self.ram@[j] == old(
                        self,
                    ).ram@[j],
                forall|j: int|
                    0xFE00 <= j < 0xFE00 + i ==> self.ram@[j] == old(self)@.read(
                        (source + (j - 0xFE00)) as u16,
                    ),
            decreases 0xA0 - i,
        {
            proof {
                let a = (source + i) as u16;
                assert(!(0xFE00 <= (a as int) < 0xFE00 + i));
                assert(0 <= (a as int) < 0x10000 ==> self.ram@[a as int] == old(self).ram@[a as int]);
                assert(0xE000 <= a < 0xFE00 ==> self.ram@[a - 0x2000] == old(self).ram@[a
                    - 0x2000]);
                assert(self@.read((source + i) as u16) == old(self)@.read((source + i) as u16));
            }
            let val = self.read_byte(source + i);
            self.ram[0xFE00 + i as usize] = val;
            i += 1;
        }
        proof {
            assert(self@.ram =~= old(self)@.dma(source_high).ram);
            assert(self@ =~= old(self)@.dma(source_high));
        }
    }
}

} // verus!
