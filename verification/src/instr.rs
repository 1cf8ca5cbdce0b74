//! The instruction decoder: `execute` for the primary opcode table and
//! `execute_cb` for the CB-prefixed table, verified against the step
//! function in `opcodes`.

use crate::bits::lemma_mask_low_nibble;
use crate::cpu::CPU;
use crate::mmu::MMU;
use crate::opcodes::{
    spec_cond, spec_dispatch0, spec_dispatch_control, spec_dispatch_ld_alu, spec_op_cycles,
    spec_op_len, spec_step, spec_step_cb, spec_undefined,
};
use vstd::prelude::*;

verus! {

/// Instruction length in bytes of a primary opcode.
fn op_len(op: u8) -> (r: u16)
    ensures
        r == spec_op_len(op),
{
    if op == 0x01 || op == 0x08 || op == 0x11 || op == 0x21 || op == 0x31 || op == 0xC2 || op
        == 0xC3 || op == 0xC4 || op == 0xCA || op == 0xCC || op == 0xCD || op == 0xD2 || op
        == 0xD4 || op == 0xDA || op == 0xDC || op == 0xEA || op == 0xFA {
        3
    } else if op == 0x06 || op == 0x0E || op == 0x16 || op == 0x1E || op == 0x26 || op == 0x2E
        || op == 0x36 || op == 0x3E || op == 0x18 || op == 0x20 || op == 0x28 || op == 0x30
        || op == 0x38 || op == 0xC6 || op == 0xCE || op == 0xD6 || op == 0xDE || op == 0xE6
        || op == 0xEE || op == 0xF6 || op == 0xFE || op == 0xE0 || op == 0xF0 || op == 0xE8
        || op == 0xF8 || op == 0xCB {
        2
    } else {
        1
    }
}

/// Whether `op` is one of the eleven bytes that are not SM83 opcodes.
pub fn opcode_undefined(op: u8) -> (r: bool)
    ensures
        r == spec_undefined(op),
{
    op == 0xD3 || op == 0xDB || op == 0xDD || op == 0xE3 || op == 0xE4 || op == 0xEB || op
        == 0xEC || op == 0xED || op == 0xF4 || op == 0xFC || op == 0xFD
}

impl CPU {
    /// Read the 8-bit register selected by `idx` (the (HL) form is read
    /// by the caller).
    fn get_r8(&self, idx: u8) -> (r: u8)
        requires
            idx < 8,
            idx != 6,
        ensures
            r == crate::opcodes::spec_r8(*self, idx),
    {
        if idx == 0 {
            self.b
        } else if idx == 1 {
            self.c
        } else if idx == 2 {
            self.d
        } else if idx == 3 {
            self.e
        } else if idx == 4 {
            self.h
        } else if idx == 5 {
            self.l
        } else {
            self.a
        }
    }

    /// Write the 8-bit register selected by `idx`.
    fn set_r8(&mut self, idx: u8, v: u8)
        requires
            idx < 8,
            idx != 6,
        ensures
            *final(self) == crate::opcodes::spec_set_r8(*old(self), idx, v),
    {
        if idx == 0 {
            self.b = v;
        } else if idx == 1 {
            self.c = v;
        } else if idx == 2 {
            self.d = v;
        } else if idx == 3 {
            self.e = v;
        } else if idx == 4 {
            self.h = v;
        } else if idx == 5 {
            self.l = v;
        } else {
            self.a = v;
        }
    }

    /// Whether a conditional opcode's NZ/Z/NC/C condition holds.
    fn cond_met(&self, op: u8) -> (r: bool)
        ensures
            r == spec_cond(op, self.f),
    {
        let cc = (op >> 3) & 0x03;
        if cc == 0 {
            (self.f & 0x80) == 0
        } else if cc == 1 {
            (self.f & 0x80) != 0
        } else if cc == 2 {
            (self.f & 0x10) == 0
        } else {
            (self.f & 0x10) != 0
        }
    }

    /// Execute one CB-prefixed instruction: the rotate/shift group, BIT,
    /// RES, or SET, on a register or on the byte at HL.
    pub fn execute_cb(&mut self, mmu: &mut MMU, opcode: u8) -> (cycles: u8)
        requires
            old(self).flags_ok(),
            old(mmu).inv(),
        ensures
            ({
                let s = spec_step_cb(*old(self), old(mmu)@, opcode);
                &&& *final(self) == s.0
                &&& final(mmu)@ == s.1
                &&& cycles == s.2
            }),
            final(self).flags_ok(),
            final(mmu).inv(),
            final(mmu).div_cycles == 0 || final(mmu).div_cycles == old(mmu).div_cycles,
            final(mmu).tima_cycles == old(mmu).tima_cycles,
            cycles == 8 || cycles == 12 || cycles == 16,
    {
        let z = opcode & 0x07;
        let y = (opcode >> 3) & 0x07;
        proof {
            assert(opcode & 0x07 < 8 && (opcode >> 3u8) & 0x07 < 8) by (bit_vector);
        }
        let hl = self.get_hl();
        let val: u8 = if z == 6 {
            mmu.read_byte(hl)
        } else {
            self.get_r8(z)
        };
        if opcode < 0x40 {
            let result: u8 = if y == 0 {
                self.rlc(val)
            } else if y == 1 {
                self.rrc(val)
            } else if y == 2 {
                self.rl(val)
            } else if y == 3 {
                self.rr(val)
            } else if y == 4 {
                self.sla(val)
            } else if y == 5 {
                self.sra(val)
            } else if y == 6 {
                self.swap(val)
            } else {
                self.srl(val)
            };
            if z == 6 {
                mmu.write_byte(hl, result);
                16
            } else {
                self.set_r8(z, result);
                8
            }
        } else if opcode < 0x80 {
            self.bit(y, val);
            if z == 6 {
                12
            } else {
                8
            }
        } else if opcode < 0xC0 {
            let result = self.res(y, val);
            if z == 6 {
                mmu.write_byte(hl, result);
                16
            } else {
                self.set_r8(z, result);
                8
            }
        } else {
            let result = self.set(y, val);
            if z == 6 {
                mmu.write_byte(hl, result);
                16
            } else {
                self.set_r8(z, result);
                8
            }
        }
    }

    /// Execute one instruction whose opcode byte is `opcode`.
    ///
    /// A halted CPU consumes 4 T-cycles and wakes exactly when an
    /// interrupt is pending and enabled, even with IME off. Otherwise the
    /// argument bytes are fetched from behind the opcode, the PC advances
    /// by the instruction's byte length before any operand effect, and
    /// the opcode's effect applies. The returned T-cycle count follows
    /// the opcode table, with the taken count exactly when a conditional
    /// instruction's condition holds.
    #[verifier::rlimit(100)]
    #[verifier::spinoff_prover]
    pub fn execute(&mut self, mmu: &mut MMU, opcode: u8) -> (cycles: u8)
        requires
            old(self).flags_ok(),
            old(mmu).inv(),
            old(self).halted || !spec_undefined(opcode),
        ensures
            ({
                let s = spec_step(*old(self), old(mmu)@, opcode);
                &&& *final(self) == s.0
                &&& final(mmu)@ == s.1
                &&& cycles == s.2
            }),
            final(self).flags_ok(),
            final(mmu).inv(),
            final(mmu).div_cycles == 0 || final(mmu).div_cycles == old(mmu).div_cycles,
            final(mmu).tima_cycles == old(mmu).tima_cycles,
            4 <= cycles <= 24,
            !old(self).halted && opcode != 0xCB ==> cycles == spec_op_cycles(
                opcode,
                spec_cond(opcode, old(self).f),
            ),
            old(self).halted ==> cycles == 4 && *final(self) == (CPU {
                halted: final(self).halted,
                ..*old(self)
            }) && final(mmu)@ == old(mmu)@,
            old(self).halted && (old(mmu)@.read(0xFF0F) & old(mmu)@.read(0xFFFF)) != 0
                ==> !final(self).halted,
    {
        if self.halted {
            let interrupt_flag = mmu.read_byte(0xFF0F);
            let interrupt_enable = mmu.read_byte(0xFFFF);
            if interrupt_flag & interrupt_enable != 0 {
                self.halted = false;
            }
            return 4;
        }
        let arg_u8 = mmu.read_byte(self.pc.wrapping_add(1));
        let arg_u16 = mmu.read_short(self.pc.wrapping_add(1));
        let len = op_len(opcode);
        self.pc = self.pc.wrapping_add(len);

        if opcode == 0xCB {
            return self.execute_cb(mmu, arg_u8);
        }
        if opcode < 0x40 {
            return self.exec_block0(mmu, opcode, arg_u8, arg_u16);
        }
        if opcode < 0xC0 {
            return self.exec_ld_alu(mmu, opcode);
        }
        self.exec_control(mmu, opcode, arg_u8, arg_u16)
    }

    /// The LD r,r' and ALU A,r blocks (0x40-0xBF), HALT included.
    #[verifier::rlimit(100)]
    fn exec_ld_alu(&mut self, mmu: &mut MMU, opcode: u8) -> (cycles: u8)
        requires
            old(self).flags_ok(),
            old(mmu).inv(),
            0x40 <= opcode < 0xC0,
        ensures
            ({
                let s = spec_dispatch_ld_alu(*old(self), old(mmu)@, opcode);
                &&& *final(self) == s.0
                &&& final(mmu)@ == s.1
                &&& cycles == s.2
            }),
            final(self).flags_ok(),
            final(mmu).inv(),
            final(mmu).div_cycles == 0 || final(mmu).div_cycles == old(mmu).div_cycles,
            final(mmu).tima_cycles == old(mmu).tima_cycles,
            4 <= cycles <= 24,
            cycles == spec_op_cycles(opcode, spec_cond(opcode, old(self).f)),
    {
        let z = opcode & 0x07;
        let y = (opcode >> 3) & 0x07;
        proof {
            assert(opcode & 0x07 < 8 && (opcode >> 3u8) & 0x07 < 8
                && !(opcode & 0xC0 == 0x40 && (opcode >> 3u8) & 0x07 == 6 && opcode & 0x07 == 6
                && opcode != 0x76)) by (bit_vector);
        }
        if opcode == 0x76 {
            self.halted = true;
            return 4;
        }
        if (opcode & 0xC0) == 0x40 {
            // LD r,r'
            if z == 6 {
                let hl = self.get_hl();
                let v = mmu.read_byte(hl);
                self.set_r8(y, v);
                return 8;
            } else if y == 6 {
                let hl = self.get_hl();
                let v = self.get_r8(z);
                mmu.write_byte(hl, v);
                return 8;
            } else {
                let v = self.get_r8(z);
                self.set_r8(y, v);
                return 4;
            }
        }
        if (opcode & 0xC0) == 0x80 {
            // ALU A,r
            let val: u8 = if z == 6 {
                let hl = self.get_hl();
                mmu.read_byte(hl)
            } else {
                self.get_r8(z)
            };
            if y == 0 {
                self.add_a(val);
            } else if y == 1 {
                self.adc(val);
            } else if y == 2 {
                self.sub(val);
            } else if y == 3 {
                self.sbc(val);
            } else if y == 4 {
                self.and(val);
            } else if y == 5 {
                self.xor(val);
            } else if y == 6 {
                self.or(val);
            } else {
                self.cp(val);
            }
            return if z == 6 {
                8
            } else {
                4
            };
        }
        // The two blocks above cover every opcode in this range.
        proof {
            assert(false) by (bit_vector)
                requires
                    0x40 <= opcode < 0xC0,
                    opcode != 0x76,
                    opcode & 0xC0 != 0x40,
                    opcode & 0xC0 != 0x80,
            ;
        }
        4
    }

    /// The 0x00-0x3F block: 8- and 16-bit loads and arithmetic, the
    /// accumulator rotates, DAA, CPL, SCF, CCF, NOP, STOP, and JR.
    #[verifier::rlimit(100)]
    fn exec_block0(&mut self, mmu: &mut MMU, opcode: u8, arg_u8: u8, arg_u16: u16) -> (cycles: u8)
        requires
            old(self).flags_ok(),
            old(mmu).inv(),
            opcode < 0x40,
        ensures
            ({
                let s = spec_dispatch0(*old(self), old(mmu)@, opcode, arg_u8, arg_u16);
                &&& *final(self) == s.0
                &&& final(mmu)@ == s.1
                &&& cycles == s.2
            }),
            final(self).flags_ok(),
            final(mmu).inv(),
            final(mmu).div_cycles == 0 || final(mmu).div_cycles == old(mmu).div_cycles,
            final(mmu).tima_cycles == old(mmu).tima_cycles,
            4 <= cycles <= 24,
            cycles == spec_op_cycles(opcode, spec_cond(opcode, old(self).f)),
    {
        let y = (opcode >> 3) & 0x07;
        let rr = (opcode >> 4) & 0x03;
        proof {
            assert((opcode >> 3u8) & 0x07 < 8 && (opcode >> 4u8) & 0x03 < 4 && opcode & 0xC0
                == 0) by (bit_vector)
                requires
                    opcode < 0x40,
            ;
        }
        if (opcode & 0xC7) == 0x04 {
            // INC r
            if y == 6 {
                let hl = self.get_hl();
                let temp = mmu.read_byte(hl);
                let r = self.inc(temp);
                mmu.write_byte(hl, r);
                return 12;
            } else {
                let temp = self.get_r8(y);
                let r = self.inc(temp);
                self.set_r8(y, r);
                return 4;
            }
        }
        if (opcode & 0xC7) == 0x05 {
            // DEC r
            if y == 6 {
                let hl = self.get_hl();
                let temp = mmu.read_byte(hl);
                let r = self.dec(temp);
                mmu.write_byte(hl, r);
                return 12;
            } else {
                let temp = self.get_r8(y);
                let r = self.dec(temp);
                self.set_r8(y, r);
                return 4;
            }
        }
        if (opcode & 0xC7) == 0x06 {
            // LD r,d8
            if y == 6 {
                let hl = self.get_hl();
                mmu.write_byte(hl, arg_u8);
                return 12;
            } else {
                self.set_r8(y, arg_u8);
                return 8;
            }
        }
        if (opcode & 0xCF) == 0x01 {
            // LD rr,d16
            if rr == 0 {
                self.set_bc(arg_u16);
            } else if rr == 1 {
                self.set_de(arg_u16);
            } else if rr == 2 {
                self.set_hl(arg_u16);
            } else {
                self.sp = arg_u16;
            }
            return 12;
        }
        if (opcode & 0xCF) == 0x02 {
            // LD (BC)/(DE)/(HL+)/(HL-),A
            if rr == 0 {
                let addr = self.get_bc();
                mmu.write_byte(addr, self.a);
            } else if rr == 1 {
                let addr = self.get_de();
                mmu.write_byte(addr, self.a);
            } else if rr == 2 {
                let hl = self.get_hl();
                mmu.write_byte(hl, self.a);
                self.set_hl(hl.wrapping_add(1));
            } else {
                let hl = self.get_hl();
                mmu.write_byte(hl, self.a);
                self.set_hl(hl.wrapping_sub(1));
            }
            return 8;
        }
        if (opcode & 0xCF) == 0x0A {
            // LD A,(BC)/(DE)/(HL+)/(HL-)
            if rr == 0 {
                let addr = self.get_bc();
                self.a = mmu.read_byte(addr);
            } else if rr == 1 {
                let addr = self.get_de();
                self.a = mmu.read_byte(addr);
            } else if rr == 2 {
                let hl = self.get_hl();
                self.a = mmu.read_byte(hl);
                self.set_hl(hl.wrapping_add(1));
            } else {
                let hl = self.get_hl();
                self.a = mmu.read_byte(hl);
                self.set_hl(hl.wrapping_sub(1));
            }
            return 8;
        }
        if (opcode & 0xCF) == 0x03 {
            // INC rr
            if rr == 0 {
                let v = self.get_bc().wrapping_add(1);
                self.set_bc(v);
            } else if rr == 1 {
                let v = self.get_de().wrapping_add(1);
                self.set_de(v);
            } else if rr == 2 {
                let v = self.get_hl().wrapping_add(1);
                self.set_hl(v);
            } else {
                self.sp = self.sp.wrapping_add(1);
            }
            return 8;
        }
        if (opcode & 0xCF) == 0x0B {
            // DEC rr
            if rr == 0 {
                let v = self.get_bc().wrapping_sub(1);
                self.set_bc(v);
            } else if rr == 1 {
                let v = self.get_de().wrapping_sub(1);
                self.set_de(v);
            } else if rr == 2 {
                let v = self.get_hl().wrapping_sub(1);
                self.set_hl(v);
            } else {
                self.sp = self.sp.wrapping_sub(1);
            }
            return 8;
        }
        if (opcode & 0xCF) == 0x09 {
            // ADD HL,rr
            let v: u16 = if rr == 0 {
                self.get_bc()
            } else if rr == 1 {
                self.get_de()
            } else if rr == 2 {
                self.get_hl()
            } else {
                self.sp
            };
            self.add_hl(v);
            return 8;
        }
        if opcode == 0x08 {
            // LD (a16),SP
            mmu.write_short(arg_u16, self.sp);
            return 20;
        }
        if opcode == 0x18 {
            // JR e8
            self.pc = self.pc.wrapping_add_signed((arg_u8 as i8) as i16);
            return 12;
        }
        if (opcode & 0xE7) == 0x20 {
            // JR cc,e8
            if self.cond_met(opcode) {
                self.pc = self.pc.wrapping_add_signed((arg_u8 as i8) as i16);
                return 12;
            } else {
                return 8;
            }
        }
        if opcode == 0x07 {
            self.rlca();
            return 4;
        }
        if opcode == 0x0F {
            self.rrca();
            return 4;
        }
        if opcode == 0x17 {
            self.rla();
            return 4;
        }
        if opcode == 0x1F {
            self.rra();
            return 4;
        }
        if opcode == 0x27 {
            self.daa();
            return 4;
        }
        if opcode == 0x2F {
            self.cpl();
            return 4;
        }
        if opcode == 0x37 {
            // SCF
            let zf = (self.f & 0x80) != 0;
            self.set_flags(zf, false, false, true);
            return 4;
        }
        if opcode == 0x3F {
            // CCF
            let zf = (self.f & 0x80) != 0;
            let cf = (self.f & 0x10) != 0;
            self.set_flags(zf, false, false, !cf);
            return 4;
        }
        if opcode == 0x00 {
            return 4;
        }
        if opcode == 0x10 {
            self.stopped = true;
            return 4;
        }
        // The arms above cover every opcode below 0x40.
        proof {
            assert(false) by (bit_vector)
                requires
                    opcode < 0x40,
                    opcode & 0xC7 != 0x04,
                    opcode & 0xC7 != 0x05,
                    opcode & 0xC7 != 0x06,
                    opcode & 0xCF != 0x01,
                    opcode & 0xCF != 0x02,
                    opcode & 0xCF != 0x0A,
                    opcode & 0xCF != 0x03,
                    opcode & 0xCF != 0x0B,
                    opcode & 0xCF != 0x09,
                    opcode != 0x08,
                    opcode != 0x18,
                    opcode & 0xE7 != 0x20,
                    opcode != 0x07,
                    opcode != 0x0F,
                    opcode != 0x17,
                    opcode != 0x1F,
                    opcode != 0x27,
                    opcode != 0x2F,
                    opcode != 0x37,
                    opcode != 0x3F,
                    opcode != 0x00,
                    opcode != 0x10,
            ;
        }
        4
    }

    /// The 0xC0-0xFF block: stack, jumps, calls, returns, RST, the
    /// high-page loads, the SP forms, DI, and EI.
    #[verifier::rlimit(100)]
    fn exec_control(&mut self, mmu: &mut MMU, opcode: u8, arg_u8: u8, arg_u16: u16) -> (cycles:
        u8)
        requires
            old(self).flags_ok(),
            old(mmu).inv(),
            opcode >= 0xC0,
            opcode != 0xCB,
            !spec_undefined(opcode),
        ensures
            ({
                let s = spec_dispatch_control(*old(self), old(mmu)@, opcode, arg_u8, arg_u16);
                &&& *final(self) == s.0
                &&& final(mmu)@ == s.1
                &&& cycles == s.2
            }),
            final(self).flags_ok(),
            final(mmu).inv(),
            final(mmu).div_cycles == 0 || final(mmu).div_cycles == old(mmu).div_cycles,
            final(mmu).tima_cycles == old(mmu).tima_cycles,
            4 <= cycles <= 24,
            cycles == spec_op_cycles(opcode, spec_cond(opcode, old(self).f)),
    {
        let y = (opcode >> 3) & 0x07;
        let rr = (opcode >> 4) & 0x03;
        proof {
            assert((opcode >> 3u8) & 0x07 < 8 && (opcode >> 4u8) & 0x03 < 4 && opcode & 0xC0
                == 0xC0 && opcode & 0xC7 != 0x04 && opcode & 0xC7 != 0x05 && opcode & 0xC7
                != 0x06 && opcode & 0xCF != 0x01 && opcode & 0xCF != 0x02 && opcode & 0xCF
                != 0x0A && opcode & 0xCF != 0x03 && opcode & 0xCF != 0x0B && opcode & 0xCF
                != 0x09 && opcode & 0xE7 != 0x20) by (bit_vector)
                requires
                    opcode >= 0xC0,
            ;
        }
        if opcode == 0xF3 {
            self.ime = false;
            return 4;
        }
        if opcode == 0xFB {
            self.ime = true;
            return 4;
        }
        if (opcode & 0xC7) == 0xC6 {
            // ALU A,d8
            if y == 0 {
                self.add_a(arg_u8);
            } else if y == 1 {
                self.adc(arg_u8);
            } else if y == 2 {
                self.sub(arg_u8);
            } else if y == 3 {
                self.sbc(arg_u8);
            } else if y == 4 {
                self.and(arg_u8);
            } else if y == 5 {
                self.xor(arg_u8);
            } else if y == 6 {
                self.or(arg_u8);
            } else {
                self.cp(arg_u8);
            }
            return 8;
        }
        if (opcode & 0xCF) == 0xC1 {
            // POP rr
            let temp = self.pop(mmu);
            if rr == 0 {
                self.set_bc(temp);
            } else if rr == 1 {
                self.set_de(temp);
            } else if rr == 2 {
                self.set_hl(temp);
            } else {
                proof {
                    lemma_mask_low_nibble();
                }
                self.set_af(temp & 0xFFF0);
            }
            return 12;
        }
        if (opcode & 0xCF) == 0xC5 {
            // PUSH rr
            let v: u16 = if rr == 0 {
                self.get_bc()
            } else if rr == 1 {
                self.get_de()
            } else if rr == 2 {
                self.get_hl()
            } else {
                self.get_af()
            };
            self.push(mmu, v);
            return 16;
        }
        if (opcode & 0xC7) == 0xC7 {
            // RST n
            let target = (opcode & 0x38) as u16;
            let pc = self.pc;
            self.push(mmu, pc);
            self.pc = target;
            return 16;
        }
        if opcode == 0xC9 {
            // RET
            let v = self.pop(mmu);
            self.pc = v;
            return 16;
        }
        if opcode == 0xD9 {
            // RETI
            let v = self.pop(mmu);
            self.pc = v;
            self.ime = true;
            return 16;
        }
        if (opcode & 0xE7) == 0xC0 {
            // RET cc
            if self.cond_met(opcode) {
                let v = self.pop(mmu);
                self.pc = v;
                return 20;
            } else {
                return 8;
            }
        }
        if opcode == 0xC3 {
            // JP a16
            self.pc = arg_u16;
            return 16;
        }
        if (opcode & 0xE7) == 0xC2 {
            // JP cc,a16
            if self.cond_met(opcode) {
                self.pc = arg_u16;
                return 16;
            } else {
                return 12;
            }
        }
        if opcode == 0xCD {
            // CALL a16
            let pc = self.pc;
            self.push(mmu, pc);
            self.pc = arg_u16;
            return 24;
        }
        if (opcode & 0xE7) == 0xC4 {
            // CALL cc,a16
            if self.cond_met(opcode) {
                let pc = self.pc;
                self.push(mmu, pc);
                self.pc = arg_u16;
                return 24;
            } else {
                return 12;
            }
        }
        if opcode == 0xE0 {
            // LDH (a8),A
            mmu.write_byte(0xFF00 + (arg_u8 as u16), self.a);
            return 12;
        }
        if opcode == 0xF0 {
            // LDH A,(a8)
            self.a = mmu.read_byte(0xFF00 + (arg_u8 as u16));
            return 12;
        }
        if opcode == 0xE2 {
            // LD (C),A
            mmu.write_byte(0xFF00 + (self.c as u16), self.a);
            return 8;
        }
        if opcode == 0xF2 {
            // LD A,(C)
            self.a = mmu.read_byte(0xFF00 + (self.c as u16));
            return 8;
        }
        if opcode == 0xEA {
            // LD (a16),A
            mmu.write_byte(arg_u16, self.a);
            return 16;
        }
        if opcode == 0xFA {
            // LD A,(a16)
            self.a = mmu.read_byte(arg_u16);
            return 16;
        }
        if opcode == 0xE8 {
            // ADD SP,e8
            self.add_signed(arg_u8 as i8);
            return 16;
        }
        if opcode == 0xF8 {
            // LD HL,SP+e8
            let temp = self.sp.wrapping_add_signed((arg_u8 as i8) as i16);
            let h = ((self.sp & 0x0F) as u32) + ((arg_u8 & 0x0F) as u32) > 0x0F;
            let c = ((self.sp & 0xFF) as u32) + (arg_u8 as u32) > 0xFF;
            self.set_flags(false, false, h, c);
            self.set_hl(temp);
            return 12;
        }
        if opcode == 0xF9 {
            // LD SP,HL
            self.sp = self.get_hl();
            return 8;
        }
        if opcode == 0xE9 {
            // JP HL
            self.pc = self.get_hl();
            return 4;
        }
        // Only the eleven undefined opcodes reach this point, and the
        // precondition rules them out.
        proof {
            assert(false) by (bit_vector)
                requires
                    opcode >= 0xC0,
                    opcode != 0xCB,
                    !(opcode == 0xD3 || opcode == 0xDB || opcode == 0xDD || opcode == 0xE3
                        || opcode == 0xE4 || opcode == 0xEB || opcode == 0xEC || opcode == 0xED
                        || opcode == 0xF4 || opcode == 0xFC || opcode == 0xFD),
                    opcode != 0xF3,
                    opcode != 0xFB,
                    opcode & 0xC7 != 0xC6,
                    opcode & 0xCF != 0xC1,
                    opcode & 0xCF != 0xC5,
                    opcode & 0xC7 != 0xC7,
                    opcode != 0xC9,
                    opcode != 0xD9,
                    opcode & 0xE7 != 0xC0,
                    opcode != 0xC3,
                    opcode & 0xE7 != 0xC2,
                    opcode != 0xCD,
                    opcode & 0xE7 != 0xC4,
                    opcode != 0xE0,
                    opcode != 0xF0,
                    opcode != 0xE2,
                    opcode != 0xF2,
                    opcode != 0xEA,
                    opcode != 0xFA,
                    opcode != 0xE8,
                    opcode != 0xF8,
                    opcode != 0xF9,
                    opcode != 0xE9,
            ;
        }
        4
    }
}

} // verus!
