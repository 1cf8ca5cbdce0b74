//! Cartridge: immutable ROM bytes, header parsing, and MBC1-class banking
//! state. The cartridge presents 0x0000-0x3FFF as ROM bank 0 and
//! 0x4000-0x7FFF as the currently selected bank.

use vstd::prelude::*;

verus! {

/// Why a ROM image was rejected at construction.
#[derive(Clone, Copy, PartialEq, Eq, Structural, Debug)]
pub enum CartError {
    /// The image is shorter than the 0x150-byte header area.
    TooShort,
    /// The ROM size code at 0x148 is not one of 0x00-0x07.
    UnknownRomSize,
    /// The RAM size code at 0x149 is not one of 0x00-0x03.
    UnknownRamSize,
    /// The image length does not match the size declared at 0x148.
    SizeMismatch,
}

/// ROM size in bytes declared by the header code at 0x148:
/// 0 maps to 32 KiB and each further code doubles it, up to 4 MiB.
pub open spec fn spec_rom_size(code: u8) -> int {
    if code == 0 {
        0x8000
    } else if code == 1 {
        0x10000
    } else if code == 2 {
        0x20000
    } else if code == 3 {
        0x40000
    } else if code == 4 {
        0x80000
    } else if code == 5 {
        0x100000
    } else if code == 6 {
        0x200000
    } else {
        0x400000
    }
}

/// RAM size in bytes declared by the header code at 0x149.
pub open spec fn spec_ram_size(code: u8) -> int {
    if code == 0 {
        0
    } else if code == 1 {
        0x800
    } else if code == 2 {
        0x2000
    } else {
        0x8000
    }
}

/// A header byte is kept in the title only when it is printable ASCII;
/// this also drops the trailing NUL padding.
pub open spec fn spec_printable(b: u8) -> bool {
    0x20 <= b <= 0x7E
}

/// The printable bytes of a sequence, in order.
pub open spec fn printable_of(s: Seq<u8>) -> Seq<u8>
    decreases s.len(),
{
    if s.len() == 0 {
        Seq::empty()
    } else {
        let rest = printable_of(s.drop_last());
        if spec_printable(s.last()) {
            rest.push(s.last())
        } else {
            rest
        }
    }
}

/// The ROM bank that a write of `value` to 0x2000-0x3FFF selects, on a
/// cartridge with `num_banks` 16 KiB banks. The low five bits are used,
/// zero is coerced to one, and the result is reduced to an existing bank
/// (bank 0 is never mapped into 0x4000-0x7FFF).
pub open spec fn spec_select_bank(value: u8, num_banks: int) -> u8 {
    let low = value & 0x1F;
    let coerced: int = if low == 0 {
        1
    } else {
        low as int
    };
    let reduced = coerced % num_banks;
    if reduced == 0 {
        1u8
    } else {
        reduced as u8
    }
}

/// Cartridge state: ROM image, parsed header fields, and banking state.
pub struct Cart {
    /// The ROM image.
    pub rom: Vec<u8>,
    /// Printable ASCII bytes of the title field at 0x134-0x143.
    pub title: Vec<u8>,
    /// Cartridge type byte at 0x147.
    pub cartridge_type: u8,
    /// ROM size code at 0x148.
    pub rom_size_code: u8,
    /// ROM size in bytes that the code declares.
    pub rom_size_bytes: usize,
    /// RAM size code at 0x149.
    pub ram_size_code: u8,
    /// External RAM size in bytes that the code declares.
    pub ram_size_bytes: usize,
    /// Whether external RAM is enabled (writes to 0x0000-0x1FFF gate this).
    pub ram_enabled: bool,
    /// The ROM bank mapped at 0x4000-0x7FFF; never 0.
    pub rom_bank_selected: u8,
}

impl Cart {
    /// Number of 16 KiB ROM banks.
    pub open spec fn spec_num_banks(self) -> int {
        self.rom_size_bytes as int / 0x4000
    }

    /// Well-formedness: the image length matches the header size code and
    /// the selected bank lies inside the image.
    pub open spec fn inv(self) -> bool {
        &&& self.rom_size_code <= 7
        &&& self.rom@.len() == self.rom_size_bytes
        &&& self.rom_size_bytes == spec_rom_size(self.rom_size_code)
        &&& self.ram_size_code <= 3
        &&& self.ram_size_bytes == spec_ram_size(self.ram_size_code)
        &&& 1 <= self.rom_bank_selected
        &&& (self.rom_bank_selected as int + 1) * 0x4000 <= self.rom@.len()
    }

    /// What a read of `addr` in 0x0000-0x7FFF returns: bank 0 below 0x4000,
    /// the selected bank above.
    pub open spec fn spec_read_rom(self, addr: u16) -> u8 {
        if addr < 0x4000 {
            self.rom@[addr as int]
        } else {
            self.rom@[self.rom_bank_selected as int * 0x4000 + (addr - 0x4000)]
        }
    }

    /// Parses the ROM header and builds the cartridge.
    ///
    /// Fails exactly when the image is shorter than the header area, a size
    /// code is unknown, or the length does not match the declared size.
    pub fn from_rom(rom: Vec<u8>) -> (r: Result<Cart, CartError>)
        ensures
            r is Ok <==> rom@.len() >= 0x150 && rom@[0x148] <= 7 && rom@[0x149] <= 3 && rom@.len()
                == spec_rom_size(rom@[0x148]),
            rom@.len() < 0x150 ==> r == Result::<Cart, CartError>::Err(CartError::TooShort),
            rom@.len() >= 0x150 && rom@[0x148] > 7 ==> r == Result::<Cart, CartError>::Err(
                CartError::UnknownRomSize,
            ),
            rom@.len() >= 0x150 && rom@[0x148] <= 7 && rom@[0x149] > 3 ==> r == Result::<
                Cart,
                CartError,
            >::Err(CartError::UnknownRamSize),
            rom@.len() >= 0x150 && rom@[0x148] <= 7 && rom@[0x149] <= 3 && rom@.len()
                != spec_rom_size(rom@[0x148]) ==> r == Result::<Cart, CartError>::Err(
                CartError::SizeMismatch,
            ),
            r matches Ok(c) ==> {
                &&& c.inv()
                &&& c.rom@ == rom@
                &&& c.title@ == printable_of(rom@.subrange(0x134, 0x144))
                &&& c.cartridge_type == rom@[0x147]
                &&& c.rom_size_code == rom@[0x148]
                &&& c.ram_size_code == rom@[0x149]
                &&& c.ram_enabled == false
                &&& c.rom_bank_selected == 1
            },
    {
        if rom.len() < 0x150 {
            return Err(CartError::TooShort);
        }
        let cartridge_type = rom[0x147];
        let rom_size_code = rom[0x148];
        let ram_size_code = rom[0x149];

        let rom_size_bytes: usize = match rom_size_code {
            0x00 => 32 * 1024,
            0x01 => 64 * 1024,
            0x02 => 128 * 1024,
            0x03 => 256 * 1024,
            0x04 => 512 * 1024,
            0x05 => 1024 * 1024,
            0x06 => 2 * 1024 * 1024,
            0x07 => 4 * 1024 * 1024,
            _ => {
                return Err(CartError::UnknownRomSize);
            },
        };

        let ram_size_bytes: usize = match ram_size_code {
            0x00 => 0,
            0x01 => 2 * 1024,
            0x02 => 8 * 1024,
            0x03 => 32 * 1024,
            _ => {
                return Err(CartError::UnknownRamSize);
            },
        };

        if rom.len() != rom_size_bytes {
            return Err(CartError::SizeMismatch);
        }

        let mut title: Vec<u8> = Vec::new();
        let mut i: usize = 0x134;
        while i < 0x144
            invariant
                0x134 <= i <= 0x144,
                rom@.len() >= 0x150,
                title@ == printable_of(rom@.subrange(0x134, i as int)),
            decreases 0x144 - i,
        {
            let b = rom[i];
            proof {
                assert(rom@.subrange(0x134, i + 1).drop_last() =~= rom@.subrange(
                    0x134,
                    i as int,
                ));
                assert(rom@.subrange(0x134, i + 1).last() == rom@[i as int]);
            }
            if 0x20 <= b && b <= 0x7E {
                title.push(b);
            }
            i += 1;
        }

        Ok(
            Cart {
                rom,
                title,
                cartridge_type,
                rom_size_code,
                rom_size_bytes,
                ram_size_code,
                ram_size_bytes,
                ram_enabled: false,
                rom_bank_selected: 1,
            },
        )
    }

    /// Read from the ROM address space 0x0000-0x7FFF.
    pub fn read_rom(&self, addr: u16) -> (r: u8)
        requires
            self.inv(),
            addr < 0x8000,
        ensures
            r == self.spec_read_rom(addr),
    {
        if addr < 0x4000 {
            self.rom[addr as usize]
        } else {
            let banked_addr = (self.rom_bank_selected as usize) * 0x4000 + (addr as usize - 0x4000);
            self.rom[banked_addr]
        }
    }

    /// A write to 0x0000-0x1FFF enables external RAM exactly when its low
    /// nibble is 0x0A.
    pub fn enable_ram(&mut self, value: u8)
        ensures
            *final(self) == (Cart { ram_enabled: (value & 0x0F) == 0x0A, ..*old(self) }),
    {
        self.ram_enabled = (value & 0x0F) == 0x0A;
    }

    /// A write to 0x2000-0x3FFF selects the ROM bank mapped at
    /// 0x4000-0x7FFF from the low five bits, coercing 0 to 1 and reducing
    /// to a bank that exists on this cartridge.
    pub fn select_rom_bank(&mut self, value: u8)
        requires
            old(self).inv(),
        ensures
            *final(self) == (Cart {
                rom_bank_selected: spec_select_bank(value, old(self).spec_num_banks()),
                ..*old(self)
            }),
            final(self).inv(),
    {
        let low = value & 0x1F;
        assert(low <= 0x1F) by (bit_vector)
            requires
                low == value & 0x1F,
        ;
        let coerced: usize = if low == 0 {
            1
        } else {
            low as usize
        };
        let num_banks: usize = self.rom_size_bytes / 0x4000;
        let reduced = coerced % num_banks;
        let bank: u8 = if reduced == 0 {
            1
        } else {
            reduced as u8
        };
        self.rom_bank_selected = bank;
    }
}

} // verus!
