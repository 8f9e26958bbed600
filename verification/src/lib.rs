//! An Intel 8080 core for a Space Invaders cabinet: instruction
//! fetch/decode/execute, register file, packed flags, stack, memory-mapped
//! framebuffer, I/O port latches and the external shift-register peripheral.
//!
//! The machine state is modelled by the ghost [`state::State`]; every
//! instruction's effect is given by the spec-level transition functions in
//! [`semantics`]; the machine itself lives in [`cpu`], and the engine in
//! [`engine`] is proved to follow the transition functions step by step.

use vstd::prelude::*;

pub mod cpu;
pub mod engine;
pub mod isa;
pub mod laws;
pub mod semantics;
pub mod state;
pub mod utils;

verus! {

/// Size of memory, including ROM, RAM and framebuffer (16 KiB).
pub const MEMORY_SIZE: usize = 0x4000;
/// Last valid memory address.
pub const MEMORY_END: usize = 0x3FFF;
/// Last address of the ROM region (the region starts at 0).
pub const ROM_END: usize = 0x1FFF;
/// First address of the RAM region.
pub const RAM_START: usize = 0x2000;
/// Last address of the RAM region.
pub const RAM_END: usize = 0x3FFF;
/// Lowest address the stack pointer may take; the stack grows downward.
pub const STACK_START: usize = 0x2301;
/// Highest address the stack pointer may take (the initial stack top).
pub const STACK_END: usize = 0x2400;
/// First address of the framebuffer region.
pub const FRAMEBUFFER_START: usize = 0x2400;
/// Last address of the framebuffer region.
pub const FRAMEBUFFER_END: usize = 0x3FFF;

/// Number of registers (B, C, D, E, H, L, F - flags, A - accumulator).
pub const NREGS: usize = 8;
/// Number of I/O ports.
pub const NPORTS: usize = 8;
/// Display frames per second.
pub const FPS: u32 = 60;
/// ~ 2 MHz CPU.
pub const FREQ: u32 = 1996800;
/// Width of display in pixels.
pub const DISPLAY_WIDTH: u32 = 224;
/// Height of display in pixels.
pub const DISPLAY_HEIGHT: u32 = 256;

} // verus!
