//! Frame timing: the cycle budget of one video frame and the two cycle
//! counters the scheduler keeps.

use vstd::prelude::*;

verus! {

/// The machine clock in T-cycles per second.
pub const CLOCK_SPEED: u32 = 4194304;

/// T-cycles in one video frame: 154 scanlines of 456 cycles.
pub const CYCLES_PER_FRAME: u32 = 70224;

/// Host frame rate target, frames per second.
pub const FRAME_RATE: u32 = 60;

/// Cycle counters: total cycles since power-on (wrapping) and cycles
/// accumulated within the current frame.
pub struct Timing {
    /// Total T-cycles, wrapping at the integer width.
    pub current_cycles: u32,
    /// T-cycles accumulated toward the current frame's budget.
    pub frame_cycles: u32,
}

impl Timing {
    /// Fresh counters.
    pub fn new() -> (t: Timing)
        ensures
            t.current_cycles == 0,
            t.frame_cycles == 0,
    {
        Timing { current_cycles: 0, frame_cycles: 0 }
    }

    /// Account one instruction's cycles to both counters.
    pub fn add_cycles(&mut self, cycles: u32)
        requires
            old(self).frame_cycles + cycles <= u32::MAX,
        ensures
            final(self).current_cycles == old(self).current_cycles.wrapping_add(cycles),
            final(self).frame_cycles == old(self).frame_cycles + cycles,
    {
        self.current_cycles = self.current_cycles.wrapping_add(cycles);
        self.frame_cycles = self.frame_cycles + cycles;
    }

    /// Whether the current frame's cycle budget is spent.
    pub fn is_frame_complete(&self) -> (r: bool)
        ensures
            r == (self.frame_cycles >= CYCLES_PER_FRAME),
    {
        self.frame_cycles >= CYCLES_PER_FRAME
    }

    /// Close out one completed frame: subtract exactly one frame budget
    /// from the accumulator, keeping the excess so the frame phase is
    /// preserved. The accumulator is never reset to zero.
    pub fn reset_frame_cycles(&mut self)
        requires
            old(self).frame_cycles >= CYCLES_PER_FRAME,
        ensures
            final(self).frame_cycles == old(self).frame_cycles - CYCLES_PER_FRAME,
            final(self).current_cycles == old(self).current_cycles,
    {
        self.frame_cycles = self.frame_cycles - CYCLES_PER_FRAME;
    }
}

} // verus!
