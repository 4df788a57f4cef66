//! Core of a DMG-style 8-bit console emulator: an LR35902-family CPU
//! interpreter together with the memory bus, memory-mapped hardware
//! registers, timer and interrupt arbiter needed to drive it from a ROM
//! image.
//!
//! The crate is organised leaves-first: bit utilities, the operand
//! taxonomy, the instruction codec, then the bus-side devices, and finally
//! the CPU execution core and the machine that ties them together.

pub mod bits;
pub mod bus;
pub mod cartridge;
pub mod cpu;
pub mod decoder;
pub mod gameboy;
pub mod hw_registers;
pub mod interrupt;
pub mod instruction;
pub mod laws;
pub mod operands;
pub mod memory;
pub mod registers;
pub mod timer;
pub mod word;

use vstd::prelude::*;

verus! {

} // verus!
