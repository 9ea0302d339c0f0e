//! Core of a cycle-interleaved emulator for the classic 8-bit home console:
//! a 6502-derivative CPU interpreter, a scanline-based picture processing
//! unit, the memory map that joins them, cartridge mappers, a joypad shift
//! register and a palette-indexed frame buffer.
//!
//! The host (window, keyboard, frame presentation, ROM file loading) lives
//! outside this crate and drives it through `Emulator`.

pub mod bus;
pub mod cpu;
pub mod emulator;
pub mod joypad;
pub mod laws;
pub mod mappers;
pub mod ppu;
pub mod ppu_memory;
pub mod registers;
pub mod screen;
