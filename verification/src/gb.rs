//! The frame scheduler: drives the CPU one instruction at a time,
//! forwards each instruction's T-cycles to the interrupt check, the
//! timers, and the PPU, applies the serial test hook, and yields a
//! completed frame at a fixed cycle budget.

use crate::cart::{Cart, CartError};
use crate::cpu::{spec_check_interrupts, spec_timers, CPU};
use crate::instr::opcode_undefined;
use crate::joypad::{Joypad, JoypadV};
use crate::mmu::{MemV, MMU};
use crate::opcodes::{spec_step, spec_undefined};
use crate::ppu::{spec_ppu_update, PPUMode, PPU};
use crate::timing::{Timing, CYCLES_PER_FRAME};
use vstd::prelude::*;

verus! {

/// Why a step could not run.
#[derive(Clone, Copy, PartialEq, Eq, Structural, Debug)]
pub enum StepError {
    /// The byte at PC is one of the eleven undefined opcodes; executing
    /// it on hardware is unpredictable, so the machine refuses.
    IllegalOpcode,
}

/// The whole machine: CPU, bus, PPU, and frame timing.
pub struct GB {
    pub cpu: CPU,
    pub mmu: MMU,
    pub ppu: PPU,
    pub timing: Timing,
}

/// Ghost view of the whole machine: register file, bus, PPU state, and
/// the two cycle counters.
#[verifier::ext_equal]
pub ghost struct GbV {
    pub cpu: CPU,
    pub mem: MemV,
    pub ppu_mode: PPUMode,
    pub ppu_cycles: u32,
    pub framebuffer: Seq<u8>,
    pub current_cycles: u32,
    pub frame_cycles: u32,
}

impl View for GB {
    type V = GbV;

    open spec fn view(&self) -> GbV {
        GbV {
            cpu: self.cpu,
            mem: self.mmu@,
            ppu_mode: self.ppu.current_mode,
            ppu_cycles: self.ppu.current_cycles,
            framebuffer: self.ppu.framebuffer@,
            current_cycles: self.timing.current_cycles,
            frame_cycles: self.timing.frame_cycles,
        }
    }
}

/// Whether the next instruction would be refused: the CPU is running
/// and the byte at PC is one of the eleven undefined opcodes.
pub open spec fn spec_step_illegal(g: GbV) -> bool {
    !g.cpu.halted && spec_undefined(g.mem.read(g.cpu.pc))
}

/// One scheduler iteration on the machine model, in strict order:
/// execute the instruction at PC, check interrupts, advance the timers
/// and the PPU by the instruction's cycles, apply the serial hook, and
/// account the cycles to both counters. Returns the next machine and
/// the serial byte, if one was emitted.
pub open spec fn spec_gb_step_once(g: GbV) -> (GbV, Option<u8>) {
    let op = g.mem.read(g.cpu.pc);
    let s = spec_step(g.cpu, g.mem, op);
    let ci = spec_check_interrupts(s.0, s.1);
    let mt = spec_timers(ci.1, s.2 as u32);
    let p = spec_ppu_update(g.ppu_mode, g.ppu_cycles, g.framebuffer, mt, s.2 as u32);
    let serial_active = p.3.read(0xFF02) == 0x81;
    // Every opcode consumes 4 to 24 cycles; the floor below never
    // changes that value and only keeps the frame recursion
    // well-founded.
    let c: u8 = if s.2 == 0 {
        1
    } else {
        s.2
    };
    (
        GbV {
            cpu: ci.0,
            mem: if serial_active {
                p.3.write(0xFF02, 0)
            } else {
                p.3
            },
            ppu_mode: p.0,
            ppu_cycles: p.1,
            framebuffer: p.2,
            current_cycles: g.current_cycles.wrapping_add(s.2 as u32),
            frame_cycles: (g.frame_cycles + c) as u32,
        },
        if serial_active {
            Some(p.3.read(0xFF01))
        } else {
            None
        },
    )
}

/// One frame of the machine model: scheduler iterations run until one
/// frame budget of cycles has accumulated, then exactly one budget is
/// subtracted, keeping the excess as the next frame's phase. Returns
/// the machine, the serial bytes emitted in order, and whether the
/// frame completed -- false when an undefined opcode stopped it, the
/// machine left at that point.
pub open spec fn spec_run_frame(g: GbV) -> (GbV, Seq<u8>, bool)
    decreases CYCLES_PER_FRAME + 255 - g.frame_cycles,
{
    if g.frame_cycles >= CYCLES_PER_FRAME {
        (
            GbV { frame_cycles: (g.frame_cycles - CYCLES_PER_FRAME) as u32, ..g },
            Seq::empty(),
            true,
        )
    } else if spec_step_illegal(g) {
        (g, Seq::empty(), false)
    } else {
        let stepped = spec_gb_step_once(g);
        let rest = spec_run_frame(stepped.0);
        (
            rest.0,
            (match stepped.1 {
                Option::Some(b) => seq![b],
                Option::None => Seq::empty(),
            }) + rest.1,
            rest.2,
        )
    }
}

impl GB {
    /// Well-formedness of the whole machine.
    pub open spec fn inv(self) -> bool {
        &&& self.cpu.flags_ok()
        &&& self.mmu.inv()
        &&& self.mmu.div_cycles < 256
        &&& self.mmu.tima_cycles < 1024
        &&& self.ppu.inv()
    }

    /// Build a machine around a ROM image: the boot-exit register file,
    /// zeroed RAM (the joypad register reads all-released), no row
    /// selected and no button down, both timer accumulators empty, the
    /// PPU at the top of an OAM phase over a white screen, and the cycle
    /// counters at zero. Fails exactly when the cartridge header is
    /// rejected.
    pub fn new(rom: Vec<u8>) -> (r: Result<GB, CartError>)
        ensures
            r is Ok <==> rom@.len() >= 0x150 && rom@[0x148] <= 7 && rom@[0x149] <= 3 && rom@.len()
                == crate::cart::spec_rom_size(rom@[0x148]),
            r matches Ok(gb) ==> {
                &&& gb.inv()
                &&& gb.mmu.cart.rom@ == rom@
                &&& gb.cpu == (CPU {
                    a: 0x01,
                    f: 0xB0,
                    b: 0x00,
                    c: 0x13,
                    d: 0x00,
                    e: 0xD8,
                    h: 0x01,
                    l: 0x4D,
                    pc: 0x100,
                    sp: 0xFFFE,
                    ime: false,
                    stopped: false,
                    halted: false,
                })
                &&& gb.mmu@.ram == Seq::new(
                    0x10000,
                    |i: int|
                        if i == 0xFF00 {
                            0xCFu8
                        } else {
                            0u8
                        },
                )
                &&& gb.mmu@.jp == (JoypadV { select: 0x30, direction: 0x0F, action: 0x0F })
                &&& gb.mmu@.div_cycles == 0
                &&& gb.mmu@.tima_cycles == 0
                &&& gb.ppu.current_mode == PPUMode::OAM
                &&& gb.ppu.current_cycles == 0
                &&& gb.ppu.framebuffer@ == Seq::new(23040nat, |i: int| 0xFFu8)
                &&& gb.timing.current_cycles == 0
                &&& gb.timing.frame_cycles == 0
            },
    {
        let cart = match Cart::from_rom(rom) {
            Ok(c) => c,
            Err(e) => {
                return Err(e);
            },
        };
        let joypad = Joypad::new();
        let mmu = MMU::new(cart, joypad);
        let cpu = CPU::new();
        let ppu = PPU::new();
        let timing = Timing::new();
        Ok(GB { cpu, mmu, ppu, timing })
    }

    /// One machine step: execute the instruction at PC, run the
    /// interrupt check, advance the timers and the PPU by its cycles,
    /// and apply the serial hook (a write of 0x81 to 0xFF02 emits the
    /// byte at 0xFF01 and clears 0xFF02).
    ///
    /// Returns the T-cycles consumed and the serial byte, if one was
    /// emitted; refuses an undefined opcode with the machine unchanged.
    pub fn step(&mut self) -> (r: Result<(u8, Option<u8>), StepError>)
        requires
            old(self).inv(),
        ensures
            final(self).inv(),
            final(self).timing == old(self).timing,
            r matches Ok(v) ==> 4 <= v.0 <= 24,
            ({
                let op = old(self).mmu@.read(old(self).cpu.pc);
                if !old(self).cpu.halted && spec_undefined(op) {
                    &&& r == Result::<(u8, Option<u8>), StepError>::Err(StepError::IllegalOpcode)
                    &&& *final(self) == *old(self)
                } else {
                    let s = spec_step(old(self).cpu, old(self).mmu@, op);
                    let ci = spec_check_interrupts(s.0, s.1);
                    let mt = spec_timers(ci.1, s.2 as u32);
                    let p = spec_ppu_update(
                        old(self).ppu.current_mode,
                        old(self).ppu.current_cycles,
                        old(self).ppu.framebuffer@,
                        mt,
                        s.2 as u32,
                    );
                    let serial_active = p.3.read(0xFF02) == 0x81;
                    &&& final(self).cpu == ci.0
                    &&& final(self).ppu.current_mode == p.0
                    &&& final(self).ppu.current_cycles == p.1
                    &&& final(self).ppu.framebuffer@ == p.2
                    &&& final(self).mmu@ == (if serial_active {
                        p.3.write(0xFF02, 0)
                    } else {
                        p.3
                    })
                    &&& r == Result::<(u8, Option<u8>), StepError>::Ok(
                        (
                            s.2,
                            if serial_active {
                                Some(p.3.read(0xFF01))
                            } else {
                                None
                            },
                        ),
                    )
                }
            }),
    {
        let opcode = self.mmu.read_byte(self.cpu.pc);
        if !self.cpu.halted && opcode_undefined(opcode) {
            return Err(StepError::IllegalOpcode);
        }
        let cycles = self.cpu.execute(&mut self.mmu, opcode);
        self.cpu.check_interrupts(&mut self.mmu);
        self.cpu.update_timers(&mut self.mmu, cycles as u32);
        self.ppu.update(&mut self.mmu, cycles as u32);
        let mut serial: Option<u8> = None;
        if self.mmu.read_byte(0xFF02) == 0x81 {
            let b = self.mmu.read_byte(0xFF01);
            self.mmu.write_byte(0xFF02, 0);
            serial = Some(b);
        }
        Ok((cycles, serial))
    }

    /// Run steps until one frame's cycle budget (70224 T-cycles) is
    /// spent, then subtract exactly one budget from the accumulator --
    /// the remainder is kept so the frame phase is preserved. Returns
    /// the serial bytes emitted during the frame, in order; stops early
    /// on an undefined opcode, the machine left at that point.
    pub fn run_frame(&mut self) -> (r: Result<Vec<u8>, StepError>)
        requires
            old(self).inv(),
            old(self).timing.frame_cycles < CYCLES_PER_FRAME,
        ensures
            final(self).inv(),
            ({
                let it = spec_run_frame(old(self)@);
                &&& final(self)@ == it.0
                &&& (r matches Ok(bytes) ==> it.2 && bytes@ == it.1)
                &&& (r is Err ==> !it.2)
            }),
            r is Ok ==> final(self).timing.frame_cycles < CYCLES_PER_FRAME,
    {
        let mut serial_out: Vec<u8> = Vec::new();
        while self.timing.frame_cycles < CYCLES_PER_FRAME
            invariant
                self.inv(),
                self.timing.frame_cycles <= CYCLES_PER_FRAME + 24,
                spec_run_frame(old(self)@).0 == spec_run_frame(self@).0,
                spec_run_frame(old(self)@).2 == spec_run_frame(self@).2,
                spec_run_frame(old(self)@).1 == serial_out@ + spec_run_frame(self@).1,
            decreases CYCLES_PER_FRAME + 24 - self.timing.frame_cycles,
        {
            let ghost pre = self@;
            let ghost pre_serial = serial_out@;
            let step_result = self.step();
            match step_result {
                Ok((cycles, serial)) => {
                    self.timing.add_cycles(cycles as u32);
                    match serial {
                        Some(b) => serial_out.push(b),
                        None => (),
                    }
                    proof {
                        let stepped = spec_gb_step_once(pre);
                        assert(self@ =~= stepped.0);
                        let first: Seq<u8> = match stepped.1 {
                            Option::Some(b) => seq![b],
                            Option::None => Seq::empty(),
                        };
                        assert(serial_out@ =~= pre_serial + first);
                        assert(pre_serial + (first + spec_run_frame(stepped.0).1) =~= (
                        pre_serial + first) + spec_run_frame(stepped.0).1);
                    }
                },
                Err(e) => {
                    proof {
                        assert(!spec_run_frame(pre).2);
                        assert(spec_run_frame(pre).0 == pre);
                    }
                    return Err(e);
                },
            }
        }
        proof {
            assert(spec_run_frame(self@).0 =~= (GbV {
                frame_cycles: (self@.frame_cycles - CYCLES_PER_FRAME) as u32,
                ..self@
            }));
            assert(spec_run_frame(old(self)@).1 =~= serial_out@ + Seq::<u8>::empty());
            assert(serial_out@ + Seq::<u8>::empty() =~= serial_out@);
        }
        self.timing.reset_frame_cycles();
        proof {
            assert(self@ =~= spec_run_frame(old(self)@).0);
        }
        Ok(serial_out)
    }
}

} // verus!
