//! Core of an emulator for the classic 8-bit handheld console: the CPU
//! execution engine, the memory bus with cartridge bank switching, and the
//! pixel-processing unit's scan-line state machine.

use vstd::prelude::*;

pub mod bus;
pub mod cartridge;
pub mod cpu;
pub mod emulator;
pub mod ppu;

verus! {

/// Width of the screen in pixels.
pub const SCREEN_WIDTH: usize = 160;

/// Height of the screen in pixels.
pub const SCREEN_HEIGHT: usize = 144;

/// Bytes in one RGBA frame (width x height x 4).
pub const SCREEN_BYTES: usize = 92160;

/// CPU cycles in one full frame (154 scan-lines of 456 cycles).
pub const CYCLES_PER_FRAME: u32 = 70224;

} // verus!
