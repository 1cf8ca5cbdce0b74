//! The SM83 instruction set as a mathematical step function: byte lengths,
//! the T-cycle table, branch conditions, and the effect of every opcode on
//! the register file and the bus.
//!
//! `instr` implements the decoder against these definitions.

use crate::bits::{hi8, lo8, word16, wrap16, wrap8};
use crate::cpu::{carry8, f_c, f_z, spec_daa, spec_flags, CPU};
use crate::mmu::MemV;
use vstd::prelude::*;

verus! {

/// The eleven byte values that are not SM83 opcodes.
pub open spec fn spec_undefined(op: u8) -> bool {
    ||| op == 0xD3
    ||| op == 0xDB
    ||| op == 0xDD
    ||| op == 0xE3
    ||| op == 0xE4
    ||| op == 0xEB
    ||| op == 0xEC
    ||| op == 0xED
    ||| op == 0xF4
    ||| op == 0xFC
    ||| op == 0xFD
}

/// Instruction length in bytes: three for the d16/a16 forms, two for the
/// d8/e8/a8 forms and the CB prefix, one for everything else.
pub open spec fn spec_op_len(op: u8) -> u16 {
    if op == 0x01 || op == 0x08 || op == 0x11 || op == 0x21 || op == 0x31 || op == 0xC2 || op
        == 0xC3 || op == 0xC4 || op == 0xCA || op == 0xCC || op == 0xCD || op == 0xD2 || op
        == 0xD4 || op == 0xDA || op == 0xDC || op == 0xEA || op == 0xFA {
        3
    } else if op == 0x06 || op == 0x0E || op == 0x16 || op == 0x1E || op == 0x26 || op == 0x2E
        || op == 0x36 || op == 0x3E || op == 0x18 || op == 0x20 || op == 0x28 || op == 0x30
        || op == 0x38 || op == 0xC6 || op == 0xCE || op == 0xD6 || op == 0xDE || op == 0xE6
        || op == 0xEE || op == 0xF6 || op == 0xFE || op == 0xE0 || op == 0xF0 || op == 0xE8
        || op == 0xF8 || op == 0xCB {
        2
    } else {
        1
    }
}

/// Whether a conditional opcode's condition holds: the condition field
/// selects NZ, Z, NC, or C.
pub open spec fn spec_cond(op: u8, f: u8) -> bool {
    let cc = (op >> 3u8) & 0x03;
    if cc == 0 {
        !f_z(f)
    } else if cc == 1 {
        f_z(f)
    } else if cc == 2 {
        !f_c(f)
    } else {
        f_c(f)
    }
}

/// The T-cycle table for the primary opcodes. Conditional jumps, calls,
/// and returns take the `taken` count when their condition holds;
/// `taken` is ignored everywhere else. The CB prefix is not listed here:
/// CB-prefixed instructions take the CB table's count.
pub open spec fn spec_op_cycles(op: u8, taken: bool) -> u8 {
    if op == 0x76 {
        4
    } else if op & 0xC0 == 0x40 {
        if op & 0x07 == 6 || (op >> 3u8) & 0x07 == 6 {
            8
        } else {
            4
        }
    } else if op & 0xC0 == 0x80 {
        if op & 0x07 == 6 {
            8
        } else {
            4
        }
    } else if op & 0xC7 == 0x04 || op & 0xC7 == 0x05 {
        if (op >> 3u8) & 0x07 == 6 {
            12
        } else {
            4
        }
    } else if op & 0xC7 == 0x06 {
        if (op >> 3u8) & 0x07 == 6 {
            12
        } else {
            8
        }
    } else if op & 0xCF == 0x01 {
        12
    } else if op & 0xCF == 0x02 || op & 0xCF == 0x0A {
        8
    } else if op & 0xCF == 0x03 || op & 0xCF == 0x0B || op & 0xCF == 0x09 {
        8
    } else if op == 0x08 {
        20
    } else if op == 0x18 {
        12
    } else if op & 0xE7 == 0x20 {
        if taken {
            12
        } else {
            8
        }
    } else if op == 0x00 || op == 0x10 || op == 0x07 || op == 0x0F || op == 0x17 || op == 0x1F
        || op == 0x27 || op == 0x2F || op == 0x37 || op == 0x3F || op == 0xF3 || op == 0xFB {
        4
    } else if op & 0xC7 == 0xC6 {
        8
    } else if op & 0xCF == 0xC1 {
        12
    } else if op & 0xCF == 0xC5 {
        16
    } else if op & 0xC7 == 0xC7 {
        16
    } else if op == 0xC9 || op == 0xD9 {
        16
    } else if op & 0xE7 == 0xC0 {
        if taken {
            20
        } else {
            8
        }
    } else if op == 0xC3 {
        16
    } else if op & 0xE7 == 0xC2 {
        if taken {
            16
        } else {
            12
        }
    } else if op == 0xCD {
        24
    } else if op & 0xE7 == 0xC4 {
        if taken {
            24
        } else {
            12
        }
    } else if op == 0xE0 || op == 0xF0 {
        12
    } else if op == 0xE2 || op == 0xF2 {
        8
    } else if op == 0xEA || op == 0xFA {
        16
    } else if op == 0xE8 {
        16
    } else if op == 0xF8 {
        12
    } else if op == 0xF9 {
        8
    } else if op == 0xE9 {
        4
    } else {
        4
    }
}

/// The 8-bit register selected by a three-bit field: B, C, D, E, H, L,
/// (HL) is handled by the caller, A.
pub open spec fn spec_r8(c: CPU, idx: u8) -> u8 {
    if idx == 0 {
        c.b
    } else if idx == 1 {
        c.c
    } else if idx == 2 {
        c.d
    } else if idx == 3 {
        c.e
    } else if idx == 4 {
        c.h
    } else if idx == 5 {
        c.l
    } else if idx == 6 {
        0
    } else {
        c.a
    }
}

/// The register file after writing the 8-bit register selected by `idx`.
pub open spec fn spec_set_r8(c: CPU, idx: u8, v: u8) -> CPU {
    if idx == 0 {
        CPU { b: v, ..c }
    } else if idx == 1 {
        CPU { c: v, ..c }
    } else if idx == 2 {
        CPU { d: v, ..c }
    } else if idx == 3 {
        CPU { e: v, ..c }
    } else if idx == 4 {
        CPU { h: v, ..c }
    } else if idx == 5 {
        CPU { l: v, ..c }
    } else if idx == 6 {
        c
    } else {
        CPU { a: v, ..c }
    }
}

/// The 16-bit register pair selected by a two-bit field: BC, DE, HL, SP.
pub open spec fn spec_r16(c: CPU, rr: u8) -> u16 {
    if rr == 0 {
        word16(c.b, c.c)
    } else if rr == 1 {
        word16(c.d, c.e)
    } else if rr == 2 {
        word16(c.h, c.l)
    } else {
        c.sp
    }
}

/// The register file after writing the pair selected by `rr`.
pub open spec fn spec_set_r16(c: CPU, rr: u8, v: u16) -> CPU {
    if rr == 0 {
        CPU { b: hi8(v), c: lo8(v), ..c }
    } else if rr == 1 {
        CPU { d: hi8(v), e: lo8(v), ..c }
    } else if rr == 2 {
        CPU { h: hi8(v), l: lo8(v), ..c }
    } else {
        CPU { sp: v, ..c }
    }
}

/// The register file after the ALU operation selected by `g` applied to A
/// and `val`: ADD, ADC, SUB, SBC, AND, XOR, OR, CP.
pub open spec fn spec_alu(c: CPU, g: u8, val: u8) -> CPU {
    if g == 0 {
        CPU {
            a: wrap8(c.a + val),
            f: spec_flags(
                wrap8(c.a + val) == 0,
                false,
                (c.a & 0x0F) + (val & 0x0F) > 0x0F,
                c.a + val > 0xFF,
            ),
            ..c
        }
    } else if g == 1 {
        CPU {
            a: wrap8(c.a + val + carry8(c.f)),
            f: spec_flags(
                wrap8(c.a + val + carry8(c.f)) == 0,
                false,
                (c.a & 0x0F) + (val & 0x0F) + carry8(c.f) > 0x0F,
                c.a + val + carry8(c.f) > 0xFF,
            ),
            ..c
        }
    } else if g == 2 {
        CPU {
            a: wrap8(c.a - val),
            f: spec_flags(
                wrap8(c.a - val) == 0,
                true,
                (c.a & 0x0F) < (val & 0x0F),
                c.a < val,
            ),
            ..c
        }
    } else if g == 3 {
        CPU {
            a: wrap8(c.a - val - carry8(c.f)),
            f: spec_flags(
                wrap8(c.a - val - carry8(c.f)) == 0,
                true,
                (c.a & 0x0F) < (val & 0x0F) + carry8(c.f),
                c.a < val + carry8(c.f),
            ),
            ..c
        }
    } else if g == 4 {
        CPU { a: c.a & val, f: spec_flags(c.a & val == 0, false, true, false), ..c }
    } else if g == 5 {
        CPU { a: c.a ^ val, f: spec_flags(c.a ^ val == 0, false, false, false), ..c }
    } else if g == 6 {
        CPU { a: c.a | val, f: spec_flags(c.a | val == 0, false, false, false), ..c }
    } else {
        CPU {
            f: spec_flags(c.a == val, true, (c.a & 0x0F) < (val & 0x0F), c.a < val),
            ..c
        }
    }
}

/// One CB-prefixed instruction: rotates and shifts, SWAP, SRL, BIT, RES,
/// and SET, on a register or on the byte at HL. Returns the CPU, the bus,
/// and the T-cycle count (8 for register forms, 12 for BIT (HL), 16 for
/// the other (HL) forms).
pub open spec fn spec_step_cb(c: CPU, m: MemV, op: u8) -> (CPU, MemV, u8) {
    let z = op & 0x07;
    let y = (op >> 3u8) & 0x07;
    let hl = word16(c.h, c.l);
    let val: u8 = if z == 6 {
        m.read(hl)
    } else {
        spec_r8(c, z)
    };
    if op < 0x40 {
        let result: u8 = if y == 0 {
            (val << 1u8) | (val >> 7u8)
        } else if y == 1 {
            (val >> 1u8) | ((val & 1) << 7u8)
        } else if y == 2 {
            (val << 1u8) | carry8(c.f)
        } else if y == 3 {
            (val >> 1u8) | (carry8(c.f) << 7u8)
        } else if y == 4 {
            val << 1u8
        } else if y == 5 {
            (val >> 1u8) | (val & 0x80)
        } else if y == 6 {
            (val >> 4u8) | (val << 4u8)
        } else {
            val >> 1u8
        };
        let carry: bool = if y == 0 || y == 2 || y == 4 {
            val >> 7u8 == 1
        } else if y == 6 {
            false
        } else {
            val & 1 == 1
        };
        let c1 = CPU { f: spec_flags(result == 0, false, false, carry), ..c };
        if z == 6 {
            (c1, m.write(hl, result), 16)
        } else {
            (spec_set_r8(c1, z, result), m, 8)
        }
    } else if op < 0x80 {
        let c1 = CPU { f: spec_flags(val & (1u8 << y) == 0, false, true, f_c(c.f)), ..c };
        (c1, m, if z == 6 { 12 } else { 8 })
    } else if op < 0xC0 {
        let result = val & !(1u8 << y);
        if z == 6 {
            (c, m.write(hl, result), 16)
        } else {
            (spec_set_r8(c, z, result), m, 8)
        }
    } else {
        let result = val | (1u8 << y);
        if z == 6 {
            (c, m.write(hl, result), 16)
        } else {
            (spec_set_r8(c, z, result), m, 8)
        }
    }
}

/// The LD r,r' and ALU A,r blocks (0x40-0xBF), HALT included.
pub open spec fn spec_dispatch_ld_alu(c: CPU, m: MemV, op: u8) -> (CPU, MemV, u8) {
    let hl = word16(c.h, c.l);
    let z = op & 0x07;
    let y = (op >> 3u8) & 0x07;
    if op == 0x76 {
        (CPU { halted: true, ..c }, m, 4)
    } else if op & 0xC0 == 0x40 {
        if z == 6 {
            (spec_set_r8(c, y, m.read(hl)), m, 8)
        } else if y == 6 {
            (c, m.write(hl, spec_r8(c, z)), 8)
        } else {
            (spec_set_r8(c, y, spec_r8(c, z)), m, 4)
        }
    } else if op & 0xC0 == 0x80 {
        if z == 6 {
            (spec_alu(c, y, m.read(hl)), m, 8)
        } else {
            (spec_alu(c, y, spec_r8(c, z)), m, 4)
        }
    } else {
        (c, m, 4)
    }
}

/// The 0x00-0x3F block: loads, 16-bit arithmetic, accumulator rotates,
/// DAA, CPL, SCF, CCF, NOP, STOP, and JR.
pub open spec fn spec_dispatch0(c: CPU, m: MemV, op: u8, a8: u8, a16: u16) -> (CPU, MemV, u8) {
    let hl = word16(c.h, c.l);
    let y = (op >> 3u8) & 0x07;
    let rr = (op >> 4u8) & 0x03;
    if op & 0xC7 == 0x04 {
        let val: u8 = if y == 6 {
            m.read(hl)
        } else {
            spec_r8(c, y)
        };
        let r = wrap8(val + 1);
        let c1 = CPU {
            f: spec_flags(r == 0, false, r & 0x0F == 0, f_c(c.f)),
            ..c
        };
        if y == 6 {
            (c1, m.write(hl, r), 12)
        } else {
            (spec_set_r8(c1, y, r), m, 4)
        }
    } else if op & 0xC7 == 0x05 {
        let val: u8 = if y == 6 {
            m.read(hl)
        } else {
            spec_r8(c, y)
        };
        let r = wrap8(val - 1);
        let c1 = CPU {
            f: spec_flags(r == 0, true, r & 0x0F == 0x0F, f_c(c.f)),
            ..c
        };
        if y == 6 {
            (c1, m.write(hl, r), 12)
        } else {
            (spec_set_r8(c1, y, r), m, 4)
        }
    } else if op & 0xC7 == 0x06 {
        if y == 6 {
            (c, m.write(hl, a8), 12)
        } else {
            (spec_set_r8(c, y, a8), m, 8)
        }
    } else if op & 0xCF == 0x01 {
        (spec_set_r16(c, rr, a16), m, 12)
    } else if op & 0xCF == 0x02 {
        if rr == 0 {
            (c, m.write(word16(c.b, c.c), c.a), 8)
        } else if rr == 1 {
            (c, m.write(word16(c.d, c.e), c.a), 8)
        } else if rr == 2 {
            (spec_set_r16(c, 2, wrap16(hl + 1)), m.write(hl, c.a), 8)
        } else {
            (spec_set_r16(c, 2, wrap16(hl - 1)), m.write(hl, c.a), 8)
        }
    } else if op & 0xCF == 0x0A {
        if rr == 0 {
            (CPU { a: m.read(word16(c.b, c.c)), ..c }, m, 8)
        } else if rr == 1 {
            (CPU { a: m.read(word16(c.d, c.e)), ..c }, m, 8)
        } else if rr == 2 {
            (spec_set_r16(CPU { a: m.read(hl), ..c }, 2, wrap16(hl + 1)), m, 8)
        } else {
            (spec_set_r16(CPU { a: m.read(hl), ..c }, 2, wrap16(hl - 1)), m, 8)
        }
    } else if op & 0xCF == 0x03 {
        (spec_set_r16(c, rr, wrap16(spec_r16(c, rr) + 1)), m, 8)
    } else if op & 0xCF == 0x0B {
        (spec_set_r16(c, rr, wrap16(spec_r16(c, rr) - 1)), m, 8)
    } else if op & 0xCF == 0x09 {
        let v = spec_r16(c, rr);
        let sum = wrap16(hl + v);
        (
            CPU {
                h: hi8(sum),
                l: lo8(sum),
                f: spec_flags(
                    f_z(c.f),
                    false,
                    (hl & 0x0FFF) + (v & 0x0FFF) > 0x0FFF,
                    hl + v > 0xFFFF,
                ),
                ..c
            },
            m,
            8,
        )
    } else if op == 0x08 {
        (c, m.write16(a16, c.sp), 20)
    } else if op == 0x18 {
        (CPU { pc: wrap16(c.pc + (a8 as i8)), ..c }, m, 12)
    } else if op & 0xE7 == 0x20 {
        if spec_cond(op, c.f) {
            (CPU { pc: wrap16(c.pc + (a8 as i8)), ..c }, m, 12)
        } else {
            (c, m, 8)
        }
    } else if op == 0x07 {
        (
            CPU {
                a: (c.a << 1u8) | (c.a >> 7u8),
                f: spec_flags(false, false, false, c.a >> 7u8 == 1),
                ..c
            },
            m,
            4,
        )
    } else if op == 0x0F {
        (
            CPU {
                a: (c.a >> 1u8) | ((c.a & 1) << 7u8),
                f: spec_flags(false, false, false, c.a & 1 == 1),
                ..c
            },
            m,
            4,
        )
    } else if op == 0x17 {
        (
            CPU {
                a: (c.a << 1u8) | carry8(c.f),
                f: spec_flags(false, false, false, c.a >> 7u8 == 1),
                ..c
            },
            m,
            4,
        )
    } else if op == 0x1F {
        (
            CPU {
                a: (c.a >> 1u8) | (carry8(c.f) << 7u8),
                f: spec_flags(false, false, false, c.a & 1 == 1),
                ..c
            },
            m,
            4,
        )
    } else if op == 0x27 {
        (CPU { a: spec_daa(c.a, c.f).0, f: spec_daa(c.a, c.f).1, ..c }, m, 4)
    } else if op == 0x2F {
        (CPU { a: !c.a, f: spec_flags(f_z(c.f), true, true, f_c(c.f)), ..c }, m, 4)
    } else if op == 0x37 {
        (CPU { f: spec_flags(f_z(c.f), false, false, true), ..c }, m, 4)
    } else if op == 0x3F {
        (CPU { f: spec_flags(f_z(c.f), false, false, !f_c(c.f)), ..c }, m, 4)
    } else if op == 0x00 {
        (c, m, 4)
    } else if op == 0x10 {
        (CPU { stopped: true, ..c }, m, 4)
    } else {
        (c, m, 4)
    }
}

/// The 0xC0-0xFF block: stack, jumps, calls, returns, RST, the
/// high-page loads, the SP forms, DI, and EI.
pub open spec fn spec_dispatch_control(c: CPU, m: MemV, op: u8, a8: u8, a16: u16) -> (
    CPU,
    MemV,
    u8,
) {
    let hl = word16(c.h, c.l);
    let y = (op >> 3u8) & 0x07;
    let rr = (op >> 4u8) & 0x03;
    if op == 0xF3 {
        (CPU { ime: false, ..c }, m, 4)
    } else if op == 0xFB {
        (CPU { ime: true, ..c }, m, 4)
    } else if op & 0xC7 == 0xC6 {
        (spec_alu(c, y, a8), m, 8)
    } else if op & 0xCF == 0xC1 {
        let v = m.read16(c.sp);
        let c1 = CPU { sp: wrap16(c.sp + 2), ..c };
        if rr == 0 {
            (CPU { b: hi8(v), c: lo8(v), ..c1 }, m, 12)
        } else if rr == 1 {
            (CPU { d: hi8(v), e: lo8(v), ..c1 }, m, 12)
        } else if rr == 2 {
            (CPU { h: hi8(v), l: lo8(v), ..c1 }, m, 12)
        } else {
            (CPU { a: hi8(v & 0xFFF0), f: lo8(v & 0xFFF0), ..c1 }, m, 12)
        }
    } else if op & 0xCF == 0xC5 {
        let v: u16 = if rr == 0 {
            word16(c.b, c.c)
        } else if rr == 1 {
            word16(c.d, c.e)
        } else if rr == 2 {
            hl
        } else {
            word16(c.a, c.f)
        };
        (
            CPU { sp: wrap16(c.sp - 2), ..c },
            m.write16(wrap16(c.sp - 2), v),
            16,
        )
    } else if op & 0xC7 == 0xC7 {
        (
            CPU { sp: wrap16(c.sp - 2), pc: (op & 0x38) as u16, ..c },
            m.write16(wrap16(c.sp - 2), c.pc),
            16,
        )
    } else if op == 0xC9 {
        (CPU { pc: m.read16(c.sp), sp: wrap16(c.sp + 2), ..c }, m, 16)
    } else if op == 0xD9 {
        (CPU { pc: m.read16(c.sp), sp: wrap16(c.sp + 2), ime: true, ..c }, m, 16)
    } else if op & 0xE7 == 0xC0 {
        if spec_cond(op, c.f) {
            (CPU { pc: m.read16(c.sp), sp: wrap16(c.sp + 2), ..c }, m, 20)
        } else {
            (c, m, 8)
        }
    } else if op == 0xC3 {
        (CPU { pc: a16, ..c }, m, 16)
    } else if op & 0xE7 == 0xC2 {
        if spec_cond(op, c.f) {
            (CPU { pc: a16, ..c }, m, 16)
        } else {
            (c, m, 12)
        }
    } else if op == 0xCD {
        (
            CPU { sp: wrap16(c.sp - 2), pc: a16, ..c },
            m.write16(wrap16(c.sp - 2), c.pc),
            24,
        )
    } else if op & 0xE7 == 0xC4 {
        if spec_cond(op, c.f) {
            (
                CPU { sp: wrap16(c.sp - 2), pc: a16, ..c },
                m.write16(wrap16(c.sp - 2), c.pc),
                24,
            )
        } else {
            (c, m, 12)
        }
    } else if op == 0xE0 {
        (c, m.write((0xFF00 + a8) as u16, c.a), 12)
    } else if op == 0xF0 {
        (CPU { a: m.read((0xFF00 + a8) as u16), ..c }, m, 12)
    } else if op == 0xE2 {
        (c, m.write((0xFF00 + c.c) as u16, c.a), 8)
    } else if op == 0xF2 {
        (CPU { a: m.read((0xFF00 + c.c) as u16), ..c }, m, 8)
    } else if op == 0xEA {
        (c, m.write(a16, c.a), 16)
    } else if op == 0xFA {
        (CPU { a: m.read(a16), ..c }, m, 16)
    } else if op == 0xE8 {
        (
            CPU {
                sp: wrap16(c.sp + (a8 as i8)),
                f: spec_flags(
                    false,
                    false,
                    (c.sp & 0x0F) + (((a8 as i8) as u8) & 0x0F) > 0x0F,
                    (c.sp & 0xFF) + (((a8 as i8) as u8) & 0xFF) > 0xFF,
                ),
                ..c
            },
            m,
            16,
        )
    } else if op == 0xF8 {
        let sum = wrap16(c.sp + (a8 as i8));
        (
            CPU {
                h: hi8(sum),
                l: lo8(sum),
                f: spec_flags(
                    false,
                    false,
                    (c.sp & 0x0F) + (a8 & 0x0F) > 0x0F,
                    (c.sp & 0xFF) + a8 > 0xFF,
                ),
                ..c
            },
            m,
            12,
        )
    } else if op == 0xF9 {
        (CPU { sp: hl, ..c }, m, 8)
    } else if op == 0xE9 {
        (CPU { pc: hl, ..c }, m, 4)
    } else {
        (c, m, 4)
    }
}

/// The effect of the primary opcode `op` on a CPU whose PC has already
/// been advanced past the instruction, with the immediate argument bytes
/// `a8` and `a16` as fetched from after the opcode.
pub open spec fn spec_dispatch(c: CPU, m: MemV, op: u8, a8: u8, a16: u16) -> (CPU, MemV, u8) {
    if op == 0xCB {
        spec_step_cb(c, m, a8)
    } else if op < 0x40 {
        spec_dispatch0(c, m, op, a8, a16)
    } else if op < 0xC0 {
        spec_dispatch_ld_alu(c, m, op)
    } else {
        spec_dispatch_control(c, m, op, a8, a16)
    }
}

/// One CPU step on opcode `op`.
///
/// A halted CPU consumes 4 T-cycles and wakes exactly when some interrupt
/// is both pending and enabled. Otherwise the immediate argument bytes
/// are fetched from behind the opcode, the PC advances by the
/// instruction's byte length, and the opcode's effect applies.
pub open spec fn spec_step(cpu: CPU, m: MemV, op: u8) -> (CPU, MemV, u8) {
    if cpu.halted {
        let pending = m.read(0xFF0F) & m.read(0xFFFF) != 0;
        (CPU { halted: !pending, ..cpu }, m, 4)
    } else {
        let a8 = m.read(cpu.pc.wrapping_add(1));
        let a16 = m.read16(cpu.pc.wrapping_add(1));
        let c0 = CPU { pc: wrap16(cpu.pc + spec_op_len(op)), ..cpu };
        spec_dispatch(c0, m, op, a8, a16)
    }
}

} // verus!
