//! SM83 CPU: register file, flag semantics, the arithmetic/logic and
//! rotate/shift primitives, the stack, interrupt dispatch, and the two
//! timers (DIV and TIMA).
//!
//! The instruction decoder itself lives in `instr`.

use crate::bits::{hi8, lo8, word16, wrap16, wrap8};
use crate::mmu::{MemV, MMU};
use vstd::arithmetic::div_mod::lemma_fundamental_div_mod_converse;
use vstd::prelude::*;

verus! {

/// The machine clock, in T-cycles per second.
pub const CPU_CLOCK_SPEED: u32 = 4194304;

/// The DIV register increment rate, in ticks per second.
pub const DIVIDER_CLOCK_SPEED: u32 = 16384;

/// One of the four flag bits in the F register.
#[derive(Clone, Copy, PartialEq, Eq, Structural, Debug)]
pub enum FlagRegister {
    Zero,
    Sub,
    HalfCarry,
    Carry,
}

/// Mask of `flag` within the F register: Z is bit 7, N bit 6, H bit 5,
/// C bit 4.
pub open spec fn spec_flag_mask(flag: FlagRegister) -> u8 {
    match flag {
        FlagRegister::Zero => 0x80,
        FlagRegister::Sub => 0x40,
        FlagRegister::HalfCarry => 0x20,
        FlagRegister::Carry => 0x10,
    }
}

/// One of the five interrupt sources, as a bit index in IF and IE.
#[derive(Clone, Copy, PartialEq, Eq, Structural, Debug)]
pub enum InterruptBit {
    VBlank,
    STAT,
    Timer,
    Serial,
    Joypad,
}

/// Mask of `bit` within IF and IE.
pub open spec fn spec_int_mask(bit: InterruptBit) -> u8 {
    match bit {
        InterruptBit::VBlank => 0x01,
        InterruptBit::STAT => 0x02,
        InterruptBit::Timer => 0x04,
        InterruptBit::Serial => 0x08,
        InterruptBit::Joypad => 0x10,
    }
}

/// Handler address of `bit`.
pub open spec fn spec_int_vector(bit: InterruptBit) -> u16 {
    match bit {
        InterruptBit::VBlank => 0x40,
        InterruptBit::STAT => 0x48,
        InterruptBit::Timer => 0x50,
        InterruptBit::Serial => 0x58,
        InterruptBit::Joypad => 0x60,
    }
}

/// Addresses of the interrupt registers and handler entry points.
#[derive(Clone, Copy, PartialEq, Eq, Structural, Debug)]
pub enum InterruptSource {
    VBlank,
    STAT,
    Timer,
    Serial,
    Joypad,
    InterruptFlag,
    InterruptEnable,
}

impl InterruptSource {
    /// The address this source names: a handler vector, or IF/IE.
    pub open spec fn spec_addr(self) -> u16 {
        match self {
            InterruptSource::VBlank => 0x40,
            InterruptSource::STAT => 0x48,
            InterruptSource::Timer => 0x50,
            InterruptSource::Serial => 0x58,
            InterruptSource::Joypad => 0x60,
            InterruptSource::InterruptFlag => 0xFF0F,
            InterruptSource::InterruptEnable => 0xFFFF,
        }
    }

    /// The address this source names.
    pub fn addr(self) -> (r: u16)
        ensures
            r == self.spec_addr(),
    {
        match self {
            InterruptSource::VBlank => 0x40,
            InterruptSource::STAT => 0x48,
            InterruptSource::Timer => 0x50,
            InterruptSource::Serial => 0x58,
            InterruptSource::Joypad => 0x60,
            InterruptSource::InterruptFlag => 0xFF0F,
            InterruptSource::InterruptEnable => 0xFFFF,
        }
    }
}

/// Addresses of the timer registers.
#[derive(Clone, Copy, PartialEq, Eq, Structural, Debug)]
pub enum TimerSource {
    DividerRegister,
    TimerCounter,
    TimerModulo,
    TimerControl,
}

impl TimerSource {
    /// The register address: DIV, TIMA, TMA, or TAC.
    pub open spec fn spec_addr(self) -> u16 {
        match self {
            TimerSource::DividerRegister => 0xFF04,
            TimerSource::TimerCounter => 0xFF05,
            TimerSource::TimerModulo => 0xFF06,
            TimerSource::TimerControl => 0xFF07,
        }
    }

    /// The register address.
    pub fn addr(self) -> (r: u16)
        ensures
            r == self.spec_addr(),
    {
        match self {
            TimerSource::DividerRegister => 0xFF04,
            TimerSource::TimerCounter => 0xFF05,
            TimerSource::TimerModulo => 0xFF06,
            TimerSource::TimerControl => 0xFF07,
        }
    }
}

/// F register byte with the given Z, N, H, C bits and a zero low nibble.
pub open spec fn spec_flags(z: bool, n: bool, h: bool, c: bool) -> u8 {
    (if z { 0x80u8 } else { 0u8 }) | (if n { 0x40u8 } else { 0u8 })
        | (if h { 0x20u8 } else { 0u8 }) | (if c { 0x10u8 } else { 0u8 })
}

/// Zero flag of an F byte.
pub open spec fn f_z(f: u8) -> bool {
    f & 0x80 != 0
}

/// Subtract flag of an F byte.
pub open spec fn f_n(f: u8) -> bool {
    f & 0x40 != 0
}

/// Half-carry flag of an F byte.
pub open spec fn f_h(f: u8) -> bool {
    f & 0x20 != 0
}

/// Carry flag of an F byte.
pub open spec fn f_c(f: u8) -> bool {
    f & 0x10 != 0
}

/// Carry flag of an F byte as 0 or 1.
pub open spec fn carry8(f: u8) -> u8 {
    if f_c(f) {
        1
    } else {
        0
    }
}

/// The four flag bits of a packed F byte read back as packed, and its low
/// nibble is zero.
pub proof fn lemma_flags_bits(z: bool, n: bool, h: bool, c: bool)
    by (bit_vector)
    ensures
        spec_flags(z, n, h, c) & 0x0F == 0,
        f_z(spec_flags(z, n, h, c)) == z,
        f_n(spec_flags(z, n, h, c)) == n,
        f_h(spec_flags(z, n, h, c)) == h,
        f_c(spec_flags(z, n, h, c)) == c,
{
}

/// The F byte after setting or clearing one flag bit.
pub open spec fn spec_set_flag(f: u8, mask: u8, value: bool) -> u8 {
    if value {
        f | mask
    } else {
        f & !mask
    }
}

/// The SM83 register file and execution state.
pub struct CPU {
    pub a: u8,
    pub f: u8,
    pub b: u8,
    pub c: u8,
    pub d: u8,
    pub e: u8,
    pub h: u8,
    pub l: u8,
    /// Program counter.
    pub pc: u16,
    /// Stack pointer.
    pub sp: u16,
    /// Interrupt master enable.
    pub ime: bool,
    /// Set by STOP.
    pub stopped: bool,
    /// Set by HALT; cleared when an interrupt is pending.
    pub halted: bool,
}

impl CPU {
    /// The low four bits of F are always zero.
    pub open spec fn flags_ok(self) -> bool {
        self.f & 0x0F == 0
    }

    /// The register file at the DMG boot-ROM exit state.
    pub fn new() -> (c: CPU)
        ensures
            c == (CPU {
                a: 0x01,
                f: 0xB0,
                b: 0x00,
                c: 0x13,
                d: 0x00,
                e: 0xD8,
                h: 0x01,
                l: 0x4D,
                pc: 0x100,
                sp: 0xFFFE,
                ime: false,
                stopped: false,
                halted: false,
            }),
            c.flags_ok(),
    {
        proof {
            assert(0xB0u8 & 0x0F == 0) by (bit_vector);
        }
        CPU {
            a: 0x01,
            f: 0xB0,
            b: 0x00,
            c: 0x13,
            d: 0x00,
            e: 0xD8,
            h: 0x01,
            l: 0x4D,
            pc: 0x100,
            sp: 0xFFFE,
            ime: false,
            stopped: false,
            halted: false,
        }
    }

    /// Read one flag as 0 or 1.
    pub fn get_flag(&self, flag: FlagRegister) -> (r: u8)
        ensures
            r == (if self.f & spec_flag_mask(flag) != 0 {
                1u8
            } else {
                0u8
            }),
    {
        let mask: u8 = match flag {
            FlagRegister::Zero => 0x80,
            FlagRegister::Sub => 0x40,
            FlagRegister::HalfCarry => 0x20,
            FlagRegister::Carry => 0x10,
        };
        if self.f & mask != 0 {
            1
        } else {
            0
        }
    }

    /// Set or clear one flag bit.
    pub fn set_flag(&mut self, flag: FlagRegister, value: bool)
        ensures
            *final(self) == (CPU {
                f: spec_set_flag(old(self).f, spec_flag_mask(flag), value),
                ..*old(self)
            }),
    {
        let mask: u8 = match flag {
            FlagRegister::Zero => 0x80,
            FlagRegister::Sub => 0x40,
            FlagRegister::HalfCarry => 0x20,
            FlagRegister::Carry => 0x10,
        };
        if value {
            self.f = self.f | mask;
        } else {
            self.f = self.f & !mask;
        }
    }

    /// Replace all four flags at once; the low nibble of F becomes zero.
    pub(crate) fn set_flags(&mut self, z: bool, n: bool, h: bool, c: bool)
        ensures
            *final(self) == (CPU { f: spec_flags(z, n, h, c), ..*old(self) }),
            final(self).flags_ok(),
    {
        proof {
            lemma_flags_bits(z, n, h, c);
        }
        self.f = (if z { 0x80u8 } else { 0u8 }) | (if n { 0x40u8 } else { 0u8 })
            | (if h { 0x20u8 } else { 0u8 }) | (if c { 0x10u8 } else { 0u8 });
    }

    /// The AF pair.
    pub fn get_af(&self) -> (r: u16)
        ensures
            r == word16(self.a, self.f),
    {
        ((self.a as u16) << 8u16) | (self.f as u16)
    }

    /// Write the AF pair.
    pub fn set_af(&mut self, value: u16)
        ensures
            *final(self) == (CPU { a: hi8(value), f: lo8(value), ..*old(self) }),
    {
        self.a = (value >> 8) as u8;
        self.f = (value & 0xFF) as u8;
    }

    /// The BC pair.
    pub fn get_bc(&self) -> (r: u16)
        ensures
            r == word16(self.b, self.c),
    {
        ((self.b as u16) << 8u16) | (self.c as u16)
    }

    /// Write the BC pair.
    pub fn set_bc(&mut self, value: u16)
        ensures
            *final(self) == (CPU { b: hi8(value), c: lo8(value), ..*old(self) }),
    {
        self.b = (value >> 8) as u8;
        self.c = (value & 0xFF) as u8;
    }

    /// The DE pair.
    pub fn get_de(&self) -> (r: u16)
        ensures
            r == word16(self.d, self.e),
    {
        ((self.d as u16) << 8u16) | (self.e as u16)
    }

    /// Write the DE pair.
    pub fn set_de(&mut self, value: u16)
        ensures
            *final(self) == (CPU { d: hi8(value), e: lo8(value), ..*old(self) }),
    {
        self.d = (value >> 8) as u8;
        self.e = (value & 0xFF) as u8;
    }

    /// The HL pair.
    pub fn get_hl(&self) -> (r: u16)
        ensures
            r == word16(self.h, self.l),
    {
        ((self.h as u16) << 8u16) | (self.l as u16)
    }

    /// Write the HL pair.
    pub fn set_hl(&mut self, value: u16)
        ensures
            *final(self) == (CPU { h: hi8(value), l: lo8(value), ..*old(self) }),
    {
        self.h = (value >> 8) as u8;
        self.l = (value & 0xFF) as u8;
    }

    /// INC primitive: `reg + 1` with Z, N=0, H per result; C unchanged.
    pub fn inc(&mut self, reg: u8) -> (r: u8)
        ensures
            r == wrap8(reg + 1),
            *final(self) == (CPU {
                f: spec_flags(wrap8(reg + 1) == 0, false, wrap8(reg + 1) & 0x0F == 0, f_c(
                    old(self).f,
                )),
                ..*old(self)
            }),
            final(self).flags_ok(),
    {
        let result = reg.wrapping_add(1);
        let c = (self.f & 0x10) != 0;
        self.set_flags(result == 0, false, (result & 0x0F) == 0, c);
        result
    }

    /// DEC primitive: `reg - 1` with Z, N=1, H per result; C unchanged.
    pub fn dec(&mut self, reg: u8) -> (r: u8)
        ensures
            r == wrap8(reg - 1),
            *final(self) == (CPU {
                f: spec_flags(wrap8(reg - 1) == 0, true, wrap8(reg - 1) & 0x0F == 0x0F, f_c(
                    old(self).f,
                )),
                ..*old(self)
            }),
            final(self).flags_ok(),
    {
        let result = reg.wrapping_sub(1);
        let c = (self.f & 0x10) != 0;
        self.set_flags(result == 0, true, (result & 0x0F) == 0x0F, c);
        result
    }

    /// RLCA: rotate A left; Z=N=H=0, C = old bit 7.
    pub fn rlca(&mut self)
        ensures
            *final(self) == (CPU {
                a: (old(self).a << 1u8) | (old(self).a >> 7u8),
                f: spec_flags(false, false, false, old(self).a >> 7u8 == 1),
                ..*old(self)
            }),
            final(self).flags_ok(),
    {
        let new_carry = self.a >> 7u8;
        self.a = (self.a << 1u8) | new_carry;
        self.set_flags(false, false, false, new_carry == 1);
    }

    /// RRCA: rotate A right; Z=N=H=0, C = old bit 0.
    pub fn rrca(&mut self)
        ensures
            *final(self) == (CPU {
                a: (old(self).a >> 1u8) | ((old(self).a & 1) << 7u8),
                f: spec_flags(false, false, false, old(self).a & 1 == 1),
                ..*old(self)
            }),
            final(self).flags_ok(),
    {
        let new_carry = self.a & 1;
        self.a = (self.a >> 1u8) | (new_carry << 7u8);
        self.set_flags(false, false, false, new_carry == 1);
    }

    /// RLA: rotate A left through carry; Z=N=H=0, C = old bit 7.
    pub fn rla(&mut self)
        ensures
            *final(self) == (CPU {
                a: (old(self).a << 1u8) | carry8(old(self).f),
                f: spec_flags(false, false, false, old(self).a >> 7u8 == 1),
                ..*old(self)
            }),
            final(self).flags_ok(),
    {
        let old_carry: u8 = if (self.f & 0x10) != 0 {
            1
        } else {
            0
        };
        let new_carry = self.a >> 7u8;
        self.a = (self.a << 1u8) | old_carry;
        self.set_flags(false, false, false, new_carry == 1);
    }

    /// RRA: rotate A right through carry; Z=N=H=0, C = old bit 0.
    pub fn rra(&mut self)
        ensures
            *final(self) == (CPU {
                a: (old(self).a >> 1u8) | (carry8(old(self).f) << 7u8),
                f: spec_flags(false, false, false, old(self).a & 1 == 1),
                ..*old(self)
            }),
            final(self).flags_ok(),
    {
        let old_carry: u8 = if (self.f & 0x10) != 0 {
            1
        } else {
            0
        };
        let new_carry = self.a & 1;
        self.a = (self.a >> 1u8) | (old_carry << 7u8);
        self.set_flags(false, false, false, new_carry == 1);
    }

    /// RLC primitive: rotate left; Z per result, C = old bit 7.
    pub fn rlc(&mut self, reg: u8) -> (r: u8)
        ensures
            r == (reg << 1u8) | (reg >> 7u8),
            *final(self) == (CPU {
                f: spec_flags((reg << 1u8) | (reg >> 7u8) == 0, false, false, reg >> 7u8 == 1),
                ..*old(self)
            }),
            final(self).flags_ok(),
    {
        let new_carry = reg >> 7u8;
        let result = (reg << 1u8) | new_carry;
        self.set_flags(result == 0, false, false, new_carry == 1);
        result
    }

    /// RRC primitive: rotate right; Z per result, C = old bit 0.
    pub fn rrc(&mut self, reg: u8) -> (r: u8)
        ensures
            r == (reg >> 1u8) | ((reg & 1) << 7u8),
            *final(self) == (CPU {
                f: spec_flags(
                    (reg >> 1u8) | ((reg & 1) << 7u8) == 0,
                    false,
                    false,
                    reg & 1 == 1,
                ),
                ..*old(self)
            }),
            final(self).flags_ok(),
    {
        let new_carry = reg & 1;
        let result = (reg >> 1u8) | (new_carry << 7u8);
        self.set_flags(result == 0, false, false, new_carry == 1);
        result
    }

    /// RL primitive: rotate left through carry; Z per result, C = old bit 7.
    pub fn rl(&mut self, reg: u8) -> (r: u8)
        ensures
            r == (reg << 1u8) | carry8(old(self).f),
            *final(self) == (CPU {
                f: spec_flags(
                    (reg << 1u8) | carry8(old(self).f) == 0,
                    false,
                    false,
                    reg >> 7u8 == 1,
                ),
                ..*old(self)
            }),
            final(self).flags_ok(),
    {
        let old_carry: u8 = if (self.f & 0x10) != 0 {
            1
        } else {
            0
        };
        let new_carry = reg >> 7u8;
        let result = (reg << 1u8) | old_carry;
        self.set_flags(result == 0, false, false, new_carry == 1);
        result
    }

    /// RR primitive: rotate right through carry; Z per result, C = old bit 0.
    pub fn rr(&mut self, reg: u8) -> (r: u8)
        ensures
            r == (reg >> 1u8) | (carry8(old(self).f) << 7u8),
            *final(self) == (CPU {
                f: spec_flags(
                    (reg >> 1u8) | (carry8(old(self).f) << 7u8) == 0,
                    false,
                    false,
                    reg & 1 == 1,
                ),
                ..*old(self)
            }),
            final(self).flags_ok(),
    {
        let old_carry: u8 = if (self.f & 0x10) != 0 {
            1
        } else {
            0
        };
        let new_carry = reg & 1;
        let result = (reg >> 1u8) | (old_carry << 7u8);
        self.set_flags(result == 0, false, false, new_carry == 1);
        result
    }

    /// SLA primitive: shift left; Z per result, C = old bit 7.
    pub fn sla(&mut self, reg: u8) -> (r: u8)
        ensures
            r == reg << 1u8,
            *final(self) == (CPU {
                f: spec_flags(reg << 1u8 == 0, false, false, reg >> 7u8 == 1),
                ..*old(self)
            }),
            final(self).flags_ok(),
    {
        let new_carry = reg >> 7u8;
        let result = reg << 1u8;
        self.set_flags(result == 0, false, false, new_carry == 1);
        result
    }

    /// SRA primitive: arithmetic shift right, bit 7 kept; C = old bit 0.
    pub fn sra(&mut self, reg: u8) -> (r: u8)
        ensures
            r == (reg >> 1u8) | (reg & 0x80),
            *final(self) == (CPU {
                f: spec_flags((reg >> 1u8) | (reg & 0x80) == 0, false, false, reg & 1 == 1),
                ..*old(self)
            }),
            final(self).flags_ok(),
    {
        let new_carry = reg & 0x80;
        let result = (reg >> 1u8) | new_carry;
        self.set_flags(result == 0, false, false, (reg & 1) == 1);
        result
    }

    /// SWAP primitive: exchange nibbles; Z per result, N=H=C=0.
    pub fn swap(&mut self, reg: u8) -> (r: u8)
        ensures
            r == (reg >> 4u8) | (reg << 4u8),
            *final(self) == (CPU {
                f: spec_flags((reg >> 4u8) | (reg << 4u8) == 0, false, false, false),
                ..*old(self)
            }),
            final(self).flags_ok(),
    {
        let result = (reg >> 4u8) | (reg << 4u8);
        self.set_flags(result == 0, false, false, false);
        result
    }

    /// SRL primitive: logical shift right; Z per result, C = old bit 0.
    pub fn srl(&mut self, value: u8) -> (r: u8)
        ensures
            r == value >> 1u8,
            *final(self) == (CPU {
                f: spec_flags(value >> 1u8 == 0, false, false, value & 1 == 1),
                ..*old(self)
            }),
            final(self).flags_ok(),
    {
        let carry = value & 1;
        let result = value >> 1u8;
        self.set_flags(result == 0, false, false, carry == 1);
        result
    }

    /// ADD A,v: Z per result, N=0, H from the low nibbles, C from the byte.
    pub fn add_a(&mut self, value: u8)
        ensures
            *final(self) == (CPU {
                a: wrap8(old(self).a + value),
                f: spec_flags(
                    wrap8(old(self).a + value) == 0,
                    false,
                    (old(self).a & 0x0F) + (value & 0x0F) > 0x0F,
                    old(self).a + value > 0xFF,
                ),
                ..*old(self)
            }),
            final(self).flags_ok(),
    {
        let result = self.a.wrapping_add(value);
        let h = ((self.a & 0x0F) as u16) + ((value & 0x0F) as u16) > 0x0F;
        let c = (self.a as u16) + (value as u16) > 0xFF;
        self.set_flags(result == 0, false, h, c);
        self.a = result;
    }

    /// ADD HL,v: N=0, H from bit 11, C from bit 15; Z unchanged.
    pub fn add_hl(&mut self, value: u16)
        ensures
            *final(self) == (CPU {
                h: hi8(wrap16(word16(old(self).h, old(self).l) + value)),
                l: lo8(wrap16(word16(old(self).h, old(self).l) + value)),
                f: spec_flags(
                    f_z(old(self).f),
                    false,
                    (word16(old(self).h, old(self).l) & 0x0FFF) + (value & 0x0FFF) > 0x0FFF,
                    word16(old(self).h, old(self).l) + value > 0xFFFF,
                ),
                ..*old(self)
            }),
            final(self).flags_ok(),
    {
        let hl = self.get_hl();
        let result = hl.wrapping_add(value);
        let z = (self.f & 0x80) != 0;
        let h = ((hl & 0x0FFF) as u32) + ((value & 0x0FFF) as u32) > 0x0FFF;
        let c = (hl as u32) + (value as u32) > 0xFFFF;
        self.set_flags(z, false, h, c);
        self.set_hl(result);
    }

    /// ADC A,v: add with carry-in; flags as for ADD with the carry folded in.
    pub fn adc(&mut self, value: u8)
        ensures
            *final(self) == (CPU {
                a: wrap8(old(self).a + value + carry8(old(self).f)),
                f: spec_flags(
                    wrap8(old(self).a + value + carry8(old(self).f)) == 0,
                    false,
                    (old(self).a & 0x0F) + (value & 0x0F) + carry8(old(self).f) > 0x0F,
                    old(self).a + value + carry8(old(self).f) > 0xFF,
                ),
                ..*old(self)
            }),
            final(self).flags_ok(),
    {
        let carry: u8 = if (self.f & 0x10) != 0 {
            1
        } else {
            0
        };
        let result = self.a.wrapping_add(value).wrapping_add(carry);
        let h = ((self.a & 0x0F) as u16) + ((value & 0x0F) as u16) + (carry as u16) > 0x0F;
        let c = (self.a as u16) + (value as u16) + (carry as u16) > 0xFF;
        self.set_flags(result == 0, false, h, c);
        self.a = result;
    }

    /// SUB A,v: Z per result, N=1, H and C as borrows.
    pub fn sub(&mut self, value: u8)
        ensures
            *final(self) == (CPU {
                a: wrap8(old(self).a - value),
                f: spec_flags(
                    wrap8(old(self).a - value) == 0,
                    true,
                    (old(self).a & 0x0F) < (value & 0x0F),
                    old(self).a < value,
                ),
                ..*old(self)
            }),
            final(self).flags_ok(),
    {
        let result = self.a.wrapping_sub(value);
        let h = (self.a & 0x0F) < (value & 0x0F);
        let c = (self.a as u16) < (value as u16);
        self.set_flags(result == 0, true, h, c);
        self.a = result;
    }

    /// SBC A,v: subtract with borrow-in.
    pub fn sbc(&mut self, value: u8)
        ensures
            *final(self) == (CPU {
                a: wrap8(old(self).a - value - carry8(old(self).f)),
                f: spec_flags(
                    wrap8(old(self).a - value - carry8(old(self).f)) == 0,
                    true,
                    (old(self).a & 0x0F) < (value & 0x0F) + carry8(old(self).f),
                    old(self).a < value + carry8(old(self).f),
                ),
                ..*old(self)
            }),
            final(self).flags_ok(),
    {
        let carry: u8 = if (self.f & 0x10) != 0 {
            1
        } else {
            0
        };
        let result = self.a.wrapping_sub(value).wrapping_sub(carry);
        let h = ((self.a & 0x0F) as u16) < ((value & 0x0F) as u16) + (carry as u16);
        let c = (self.a as u16) < (value as u16) + (carry as u16);
        self.set_flags(result == 0, true, h, c);
        self.a = result;
    }

    /// ADD SP,e8: signed add to SP; Z=N=0, H and C from the low byte.
    pub fn add_signed(&mut self, value: i8)
        ensures
            *final(self) == (CPU {
                sp: wrap16(old(self).sp + value),
                f: spec_flags(
                    false,
                    false,
                    (old(self).sp & 0x0F) + ((value as u8) & 0x0F) > 0x0F,
                    (old(self).sp & 0xFF) + ((value as u8) & 0xFF) > 0xFF,
                ),
                ..*old(self)
            }),
            final(self).flags_ok(),
    {
        let result = self.sp.wrapping_add_signed(value as i16);
        let vb = #[verifier::truncate] (value as u8);
        let h = ((self.sp & 0x0F) as u32) + ((vb & 0x0F) as u32) > 0x0F;
        let c = ((self.sp & 0xFF) as u32) + ((vb & 0xFF) as u32) > 0xFF;
        self.set_flags(false, false, h, c);
        self.sp = result;
    }

    /// AND A,v: Z per result, N=0, H=1, C=0.
    pub fn and(&mut self, value: u8)
        ensures
            *final(self) == (CPU {
                a: old(self).a & value,
                f: spec_flags(old(self).a & value == 0, false, true, false),
                ..*old(self)
            }),
            final(self).flags_ok(),
    {
        self.a = self.a & value;
        let z = self.a == 0;
        self.set_flags(z, false, true, false);
    }

    /// XOR A,v: Z per result, N=H=C=0.
    pub fn xor(&mut self, value: u8)
        ensures
            *final(self) == (CPU {
                a: old(self).a ^ value,
                f: spec_flags(old(self).a ^ value == 0, false, false, false),
                ..*old(self)
            }),
            final(self).flags_ok(),
    {
        self.a = self.a ^ value;
        let z = self.a == 0;
        self.set_flags(z, false, false, false);
    }

    /// OR A,v: Z per result, N=H=C=0.
    pub fn or(&mut self, value: u8)
        ensures
            *final(self) == (CPU {
                a: old(self).a | value,
                f: spec_flags(old(self).a | value == 0, false, false, false),
                ..*old(self)
            }),
            final(self).flags_ok(),
    {
        self.a = self.a | value;
        let z = self.a == 0;
        self.set_flags(z, false, false, false);
    }

    /// CP A,v: compare; flags as SUB, A unchanged.
    pub fn cp(&mut self, value: u8)
        ensures
            *final(self) == (CPU {
                f: spec_flags(
                    old(self).a == value,
                    true,
                    (old(self).a & 0x0F) < (value & 0x0F),
                    old(self).a < value,
                ),
                ..*old(self)
            }),
            final(self).flags_ok(),
    {
        let z = self.a == value;
        let h = (self.a & 0x0F) < (value & 0x0F);
        let c = (self.a as u16) < (value as u16);
        self.set_flags(z, true, h, c);
    }

    /// BIT b,v: Z = (bit b of v is 0), N=0, H=1; C unchanged.
    pub fn bit(&mut self, bit: u8, value: u8)
        requires
            bit < 8,
        ensures
            *final(self) == (CPU {
                f: spec_flags(value & (1u8 << bit) == 0, false, true, f_c(old(self).f)),
                ..*old(self)
            }),
            final(self).flags_ok(),
    {
        let c = (self.f & 0x10) != 0;
        let z = (value & (1u8 << bit)) == 0;
        self.set_flags(z, false, true, c);
    }

    /// RES b,v: clear bit b; no flag effect.
    pub fn res(&self, bit: u8, value: u8) -> (r: u8)
        requires
            bit < 8,
        ensures
            r == value & !(1u8 << bit),
    {
        value & !(1u8 << bit)
    }

    /// SET b,v: set bit b; no flag effect.
    pub fn set(&self, bit: u8, value: u8) -> (r: u8)
        requires
            bit < 8,
        ensures
            r == value | (1u8 << bit),
    {
        value | (1u8 << bit)
    }

    /// CPL: complement A; N=1, H=1, Z and C unchanged.
    pub fn cpl(&mut self)
        ensures
            *final(self) == (CPU {
                a: !old(self).a,
                f: spec_flags(f_z(old(self).f), true, true, f_c(old(self).f)),
                ..*old(self)
            }),
            final(self).flags_ok(),
    {
        self.a = !self.a;
        let z = (self.f & 0x80) != 0;
        let c = (self.f & 0x10) != 0;
        self.set_flags(z, true, true, c);
    }

    /// DAA: decimal-adjust A after a BCD add or subtract, driven by N, H,
    /// and C; Z per result, H cleared, C set when the adjustment crossed
    /// the 0x99 boundary.
    #[verifier::rlimit(60)]
    pub fn daa(&mut self)
        ensures
            *final(self) == (CPU {
                a: spec_daa(old(self).a, old(self).f).0,
                f: spec_daa(old(self).a, old(self).f).1,
                ..*old(self)
            }),
            final(self).flags_ok(),
    {
        let half_carry = (self.f & 0x20) != 0;
        let carry = (self.f & 0x10) != 0;
        let subtract = (self.f & 0x40) != 0;

        let mut offset: u8 = 0;
        let mut should_carry = false;

        if (!subtract && self.a & 0xF > 0x09) || half_carry {
            offset = 0x06;
        }
        if (!subtract && self.a > 0x99) || carry {
            offset = offset | 0x60;
            should_carry = true;
        }

        self.a = if !subtract {
            self.a.wrapping_add(offset)
        } else {
            self.a.wrapping_sub(offset)
        };

        let z = self.a == 0;
        self.set_flags(z, subtract, false, should_carry);
    }
}

/// State of (TIMA, IF) after `n` timer ticks: each tick increments TIMA,
/// and on overflow TIMA reloads from TMA and the Timer interrupt bit is
/// raised in IF.
pub open spec fn spec_tima_step(tima: u8, tma: u8, iflag: u8, n: nat) -> (u8, u8)
    decreases n,
{
    if n == 0 {
        (tima, iflag)
    } else {
        let prev = spec_tima_step(tima, tma, iflag, (n - 1) as nat);
        if prev.0 == 255 {
            (tma, prev.1 | 0x04)
        } else {
            ((prev.0 + 1) as u8, prev.1)
        }
    }
}

/// T-cycles per TIMA increment for the given TAC value: TAC bits 1:0
/// select 4096, 262144, 65536, or 16384 Hz out of the 4194304 Hz clock.
pub open spec fn spec_tac_rate(tac: u8) -> u32 {
    if tac & 0x03 == 0 {
        1024
    } else if tac & 0x03 == 1 {
        16
    } else if tac & 0x03 == 2 {
        64
    } else {
        256
    }
}

/// The bus after both timers advance by `cycles` T-cycles: TIMA ticks
/// once per full TAC period when enabled (reloading from TMA and raising
/// the Timer interrupt on overflow), and DIV gains one per full 256-cycle
/// period.
pub open spec fn spec_timers(m: MemV, cycles: u32) -> MemV {
    let tac = m.read(0xFF07);
    let t: (u8, u8, u32) = if tac & 0x04 != 0 {
        let total = m.tima_cycles + cycles;
        let rate = spec_tac_rate(tac) as int;
        let st = spec_tima_step(m.read(0xFF05), m.read(0xFF06), m.read(0xFF0F), (total / rate) as nat);
        (st.0, st.1, (total % rate) as u32)
    } else {
        (m.read(0xFF05), m.read(0xFF0F), m.tima_cycles)
    };
    let dtotal = m.div_cycles + cycles;
    MemV {
        ram: m.ram.update(0xFF05, t.0).update(0xFF0F, t.1).update(
            0xFF04,
            wrap8(m.read(0xFF04) + dtotal / 256),
        ),
        div_cycles: (dtotal % 256) as u32,
        tima_cycles: t.2,
        ..m
    }
}

/// The CPU and bus after handling one interrupt source, given the IF and
/// IE bytes sampled before dispatch: when IME is set and the source is
/// pending and enabled, IME falls, the IF bit clears, the PC is pushed,
/// and control moves to the vector.
pub open spec fn spec_handle_interrupt(
    cpu: CPU,
    m: MemV,
    interrupt_flag: u8,
    interrupt_enable: u8,
    bit: InterruptBit,
) -> (CPU, MemV) {
    if cpu.ime && (interrupt_flag & interrupt_enable & spec_int_mask(bit)) != 0 {
        let m1 = m.write(0xFF0F, interrupt_flag & !spec_int_mask(bit));
        let m2 = m1.write16(wrap16(cpu.sp - 2), cpu.pc);
        (
            CPU { ime: false, sp: wrap16(cpu.sp - 2), pc: spec_int_vector(bit), ..cpu },
            m2,
        )
    } else {
        (cpu, m)
    }
}

/// The CPU and bus after the post-instruction interrupt check: when IME
/// is set and some enabled interrupt is pending, the five sources are
/// offered in priority order (dispatching clears IME, so exactly the
/// highest-priority pending one runs) and HALT is left.
pub open spec fn spec_check_interrupts(cpu: CPU, m: MemV) -> (CPU, MemV) {
    let iflag = m.read(0xFF0F);
    let ienable = m.read(0xFFFF);
    if cpu.ime && (iflag & ienable) != 0 {
        let s1 = spec_handle_interrupt(cpu, m, iflag, ienable, InterruptBit::VBlank);
        let s2 = spec_handle_interrupt(s1.0, s1.1, iflag, ienable, InterruptBit::STAT);
        let s3 = spec_handle_interrupt(s2.0, s2.1, iflag, ienable, InterruptBit::Timer);
        let s4 = spec_handle_interrupt(s3.0, s3.1, iflag, ienable, InterruptBit::Serial);
        let s5 = spec_handle_interrupt(s4.0, s4.1, iflag, ienable, InterruptBit::Joypad);
        (CPU { halted: false, ..s5.0 }, s5.1)
    } else {
        (cpu, m)
    }
}

impl CPU {
    /// Pop a word from the stack: read at SP, then SP rises by two.
    pub fn pop(&mut self, mmu: &MMU) -> (r: u16)
        requires
            mmu.inv(),
        ensures
            r == mmu@.read16(old(self).sp),
            *final(self) == (CPU { sp: wrap16(old(self).sp + 2), ..*old(self) }),
    {
        let val = mmu.read_short(self.sp);
        self.sp = self.sp.wrapping_add(2);
        val
    }

    /// Push a word onto the stack: SP falls by two, then the word is
    /// stored at the new SP, low byte first.
    pub fn push(&mut self, mmu: &mut MMU, value: u16)
        requires
            old(mmu).inv(),
        ensures
            *final(self) == (CPU { sp: wrap16(old(self).sp - 2), ..*old(self) }),
            final(mmu)@ == old(mmu)@.write16(wrap16(old(self).sp - 2), value),
            final(mmu).inv(),
            final(mmu).div_cycles == 0 || final(mmu).div_cycles == old(mmu).div_cycles,
            final(mmu).tima_cycles == old(mmu).tima_cycles,
    {
        self.sp = self.sp.wrapping_sub(2);
        mmu.write_short(self.sp, value);
    }

    /// Raise one interrupt source's bit in IF.
    pub fn request_interrupt(&mut self, mmu: &mut MMU, interrupt_bit: InterruptBit)
        requires
            old(mmu).inv(),
        ensures
            *final(self) == *old(self),
            final(mmu)@ == old(mmu)@.write(
                0xFF0F,
                old(mmu)@.read(0xFF0F) | spec_int_mask(interrupt_bit),
            ),
            final(mmu).inv(),
            final(mmu).div_cycles == 0 || final(mmu).div_cycles == old(mmu).div_cycles,
            final(mmu).tima_cycles == old(mmu).tima_cycles,
    {
        let interrupt_flag = mmu.read_byte(0xFF0F);
        let mask: u8 = match interrupt_bit {
            InterruptBit::VBlank => 0x01,
            InterruptBit::STAT => 0x02,
            InterruptBit::Timer => 0x04,
            InterruptBit::Serial => 0x08,
            InterruptBit::Joypad => 0x10,
        };
        mmu.write_byte(0xFF0F, interrupt_flag | mask);
    }

    /// Dispatch one interrupt source if IME is set and the source is both
    /// pending and enabled in the sampled IF and IE bytes.
    pub fn handle_interrupt(
        &mut self,
        mmu: &mut MMU,
        interrupt_flag: u8,
        interrupt_enable: u8,
        interrupt_bit: InterruptBit,
    )
        requires
            old(mmu).inv(),
        ensures
            *final(self) == spec_handle_interrupt(
                *old(self),
                old(mmu)@,
                interrupt_flag,
                interrupt_enable,
                interrupt_bit,
            ).0,
            final(mmu)@ == spec_handle_interrupt(
                *old(self),
                old(mmu)@,
                interrupt_flag,
                interrupt_enable,
                interrupt_bit,
            ).1,
            final(mmu).inv(),
            final(mmu).div_cycles == 0 || final(mmu).div_cycles == old(mmu).div_cycles,
            final(mmu).tima_cycles == old(mmu).tima_cycles,
    {
        let mask: u8 = match interrupt_bit {
            InterruptBit::VBlank => 0x01,
            InterruptBit::STAT => 0x02,
            InterruptBit::Timer => 0x04,
            InterruptBit::Serial => 0x08,
            InterruptBit::Joypad => 0x10,
        };
        if self.ime && (interrupt_flag & interrupt_enable & mask) != 0 {
            self.ime = false;
            mmu.write_byte(0xFF0F, interrupt_flag & !mask);
            let pc = self.pc;
            self.push(mmu, pc);
            self.pc = match interrupt_bit {
                InterruptBit::VBlank => 0x40,
                InterruptBit::STAT => 0x48,
                InterruptBit::Timer => 0x50,
                InterruptBit::Serial => 0x58,
                InterruptBit::Joypad => 0x60,
            };
        }
    }

    /// The post-instruction interrupt check: sample IF and IE once and
    /// offer the five sources in priority order; a dispatch clears IME,
    /// so at most the highest-priority pending source runs. Leaves HALT
    /// when a dispatch was possible.
    pub fn check_interrupts(&mut self, mmu: &mut MMU)
        requires
            old(mmu).inv(),
        ensures
            *final(self) == spec_check_interrupts(*old(self), old(mmu)@).0,
            final(mmu)@ == spec_check_interrupts(*old(self), old(mmu)@).1,
            final(mmu).inv(),
            final(mmu).div_cycles == 0 || final(mmu).div_cycles == old(mmu).div_cycles,
            final(mmu).tima_cycles == old(mmu).tima_cycles,
    {
        let interrupt_flag = mmu.read_byte(0xFF0F);
        let interrupt_enable = mmu.read_byte(0xFFFF);

        if self.ime && (interrupt_flag & interrupt_enable) != 0 {
            self.handle_interrupt(mmu, interrupt_flag, interrupt_enable, InterruptBit::VBlank);
            self.handle_interrupt(mmu, interrupt_flag, interrupt_enable, InterruptBit::STAT);
            self.handle_interrupt(mmu, interrupt_flag, interrupt_enable, InterruptBit::Timer);
            self.handle_interrupt(mmu, interrupt_flag, interrupt_enable, InterruptBit::Serial);
            self.handle_interrupt(mmu, interrupt_flag, interrupt_enable, InterruptBit::Joypad);
            self.halted = false;
        }
    }

    /// Advance TIMA by `instruction_cycles` T-cycles when TAC enables it:
    /// the accumulator gains the cycles and TIMA ticks once per full
    /// period, reloading from TMA and raising the Timer interrupt on each
    /// overflow.
    pub fn update_tima(&self, mmu: &mut MMU, instruction_cycles: u32)
        requires
            old(mmu).inv(),
            old(mmu).tima_cycles < 1024,
            instruction_cycles <= 24,
        ensures
            final(mmu).inv(),
            final(mmu).tima_cycles < 1024,
            ({
                let m0 = old(mmu)@;
                let tac = m0.read(0xFF07);
                if tac & 0x04 != 0 {
                    let total = m0.tima_cycles + instruction_cycles;
                    let n = total / spec_tac_rate(tac) as int;
                    let st = spec_tima_step(m0.read(0xFF05), m0.read(0xFF06), m0.read(0xFF0F), n as nat);
                    &&& final(mmu)@.ram[0xFF05] == st.0
                    &&& final(mmu)@.ram[0xFF0F] == st.1
                    &&& (forall|j: int|
                        0 <= j < 0x10000 && j != 0xFF05 && j != 0xFF0F ==> final(mmu)@.ram[j]
                            == m0.ram[j])
                    &&& final(mmu)@.tima_cycles == total % (spec_tac_rate(tac) as int)
                    &&& final(mmu)@ == (MemV {
                        ram: final(mmu)@.ram,
                        tima_cycles: final(mmu)@.tima_cycles,
                        ..m0
                    })
                } else {
                    final(mmu)@ == m0
                }
            }),
    {
        let tima = mmu.read_byte(0xFF05);
        let tma = mmu.read_byte(0xFF06);
        let tac = mmu.read_byte(0xFF07);
        let timer_enabled = (tac & 0x04) != 0;

        if timer_enabled {
            let increment_rate: u32 = match tac & 0x03 {
                0 => 1024,
                1 => 16,
                2 => 64,
                _ => 256,
            };
            mmu.tima_cycles = mmu.tima_cycles + instruction_cycles;
            let mut t = tima;
            let ghost m0 = old(mmu)@;
            let ghost total = m0.tima_cycles + instruction_cycles;
            let ghost mut k: int = 0;
            while mmu.tima_cycles >= increment_rate
                invariant
                    mmu.inv(),
                    instruction_cycles <= 24,
                    increment_rate == spec_tac_rate(tac),
                    tma == m0.read(0xFF06),
                    mmu@.rom == m0.rom,
                    mmu@.rom_bank == m0.rom_bank,
                    mmu@.ram_enabled == m0.ram_enabled,
                    mmu@.jp == m0.jp,
                    mmu@.div_cycles == m0.div_cycles,
                    m0 == old(mmu)@,
                    total == m0.tima_cycles + instruction_cycles,
                    0 <= k,
                    mmu@.tima_cycles == total - k * increment_rate,
                    t == spec_tima_step(m0.read(0xFF05), m0.read(0xFF06), m0.read(0xFF0F), k as nat).0,
                    mmu@.ram.len() == 0x10000,
                    mmu@.ram[0xFF05] == t,
                    mmu@.ram[0xFF0F] == spec_tima_step(
                        m0.read(0xFF05),
                        m0.read(0xFF06),
                        m0.read(0xFF0F),
                        k as nat,
                    ).1,
                    forall|j: int|
                        0 <= j < 0x10000 && j != 0xFF05 && j != 0xFF0F ==> mmu@.ram[j] == m0.ram[j],
                decreases mmu.tima_cycles,
            {
                if t == 255 {
                    t = tma;
                    mmu.write_byte(0xFF05, t);
                    let ifl = mmu.read_byte(0xFF0F);
                    mmu.write_byte(0xFF0F, ifl | 0x04);
                } else {
                    t = t + 1;
                    mmu.write_byte(0xFF05, t);
                }
                mmu.tima_cycles = mmu.tima_cycles - increment_rate;
                proof {
                    assert((k + 1) * increment_rate == k * increment_rate + increment_rate)
                        by (nonlinear_arith);
                    assert(((k + 1) as nat - 1) as nat == k as nat);
                    assert(spec_tima_step(
                        m0.read(0xFF05),
                        m0.read(0xFF06),
                        m0.read(0xFF0F),
                        (k + 1) as nat,
                    ) == ({
                        let prev = spec_tima_step(
                            m0.read(0xFF05),
                            m0.read(0xFF06),
                            m0.read(0xFF0F),
                            k as nat,
                        );
                        if prev.0 == 255 {
                            (m0.read(0xFF06), prev.1 | 0x04)
                        } else {
                            ((prev.0 + 1) as u8, prev.1)
                        }
                    }));
                    k = k + 1;
                }
            }
            proof {
                lemma_fundamental_div_mod_converse(
                    total as int,
                    increment_rate as int,
                    k,
                    mmu@.tima_cycles as int,
                );
            }
        }
    }

    /// Advance DIV by `instruction_cycles` T-cycles: DIV gains one for
    /// each full 256-cycle period in the accumulator.
    pub fn update_div(&self, mmu: &mut MMU, instruction_cycles: u32)
        requires
            old(mmu).inv(),
            old(mmu).div_cycles < 256,
            instruction_cycles <= 24,
        ensures
            final(mmu)@ == (MemV {
                ram: old(mmu)@.ram.update(
                    0xFF04,
                    wrap8(
                        old(mmu)@.read(0xFF04) + (old(mmu)@.div_cycles + instruction_cycles)
                            / 256,
                    ),
                ),
                div_cycles: ((old(mmu)@.div_cycles + instruction_cycles) % 256) as u32,
                ..old(mmu)@
            }),
            final(mmu).inv(),
    {
        let mut div = mmu.read_byte(0xFF04);
        mmu.div_cycles = mmu.div_cycles + instruction_cycles;
        if mmu.div_cycles >= 256 {
            div = div.wrapping_add(1);
            mmu.div_cycles = mmu.div_cycles - 256;
        }
        // The timer's own store bypasses the bus: the 0xFF04 write trap is
        // for guest writes, which reset DIV rather than set it.
        mmu.ram[0xFF04] = div;
        proof {
            assert(mmu@.ram =~= old(mmu)@.ram.update(
                0xFF04,
                wrap8(
                    old(mmu)@.read(0xFF04) + (old(mmu)@.div_cycles + instruction_cycles) / 256,
                ),
            ));
            assert(mmu@ =~= (MemV {
                ram: mmu@.ram,
                div_cycles: ((old(mmu)@.div_cycles + instruction_cycles) % 256) as u32,
                ..old(mmu)@
            }));
        }
    }

    /// Advance both timers by one instruction's T-cycles.
    pub fn update_timers(&self, mmu: &mut MMU, instruction_cycles: u32)
        requires
            old(mmu).inv(),
            old(mmu).div_cycles < 256,
            old(mmu).tima_cycles < 1024,
            instruction_cycles <= 24,
        ensures
            final(mmu).inv(),
            final(mmu).div_cycles < 256,
            final(mmu).tima_cycles < 1024,
            final(mmu)@ == spec_timers(old(mmu)@, instruction_cycles),
            ({
                let m0 = old(mmu)@;
                let tac = m0.read(0xFF07);
                let div_total = m0.div_cycles + instruction_cycles;
                let tima_clauses: bool = if tac & 0x04 != 0 {
                    let total = m0.tima_cycles + instruction_cycles;
                    let n = total / spec_tac_rate(tac) as int;
                    let st = spec_tima_step(m0.read(0xFF05), m0.read(0xFF06), m0.read(0xFF0F), n as nat);
                    &&& final(mmu)@.ram[0xFF05] == st.0
                    &&& final(mmu)@.ram[0xFF0F] == st.1
                    &&& final(mmu)@.tima_cycles == total % (spec_tac_rate(tac) as int)
                } else {
                    &&& final(mmu)@.ram[0xFF05] == m0.ram[0xFF05]
                    &&& final(mmu)@.ram[0xFF0F] == m0.ram[0xFF0F]
                    &&& final(mmu)@.tima_cycles == m0.tima_cycles
                };
                &&& tima_clauses
                &&& final(mmu)@.ram[0xFF04] == wrap8(m0.read(0xFF04) + div_total / 256)
                &&& final(mmu)@.div_cycles == div_total % 256
                &&& (forall|j: int|
                    0 <= j < 0x10000 && j != 0xFF04 && j != 0xFF05 && j != 0xFF0F
                        ==> final(mmu)@.ram[j] == m0.ram[j])
                &&& final(mmu)@.ram.len() == 0x10000
                &&& final(mmu)@ == (MemV {
                    ram: final(mmu)@.ram,
                    div_cycles: final(mmu)@.div_cycles,
                    tima_cycles: final(mmu)@.tima_cycles,
                    ..m0
                })
            }),
    {
        self.update_tima(mmu, instruction_cycles);
        self.update_div(mmu, instruction_cycles);
        proof {
            assert(mmu@.ram =~= spec_timers(old(mmu)@, instruction_cycles).ram);
            assert(mmu@ =~= spec_timers(old(mmu)@, instruction_cycles));
        }
    }
}

/// The A and F values that DAA produces from the given A and F.
pub open spec fn spec_daa(a: u8, f: u8) -> (u8, u8) {
    let offset1: u8 = if (!f_n(f) && a & 0xF > 0x09) || f_h(f) {
        0x06
    } else {
        0
    };
    let offset: u8 = if (!f_n(f) && a > 0x99) || f_c(f) {
        offset1 | 0x60
    } else {
        offset1
    };
    let should_carry = (!f_n(f) && a > 0x99) || f_c(f);
    let a2: u8 = if !f_n(f) {
        wrap8(a + offset)
    } else {
        wrap8(a - offset)
    };
    (a2, spec_flags(a2 == 0, f_n(f), false, should_carry))
}

} // verus!
