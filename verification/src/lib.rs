//! Verified core of a Game Boy (DMG) emulator: SM83 CPU, memory map unit,
//! interrupt controller and timers, scanline PPU, and the frame scheduler.
//!
//! The host window, keyboard binding, and ROM file loading live outside this
//! library; they exchange plain values (bytes, the framebuffer, button
//! events) with the verified core.

pub mod bits;
pub mod cart;
pub mod cpu;
pub mod gb;
pub mod instr;
pub mod joypad;
pub mod laws;
pub mod mmu;
pub mod opcodes;
pub mod ppu;
pub mod timing;
