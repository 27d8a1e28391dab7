//! A Game Boy (DMG) emulator core with machine-checked contracts.
use vstd::prelude::*;

pub mod apu;
pub mod bytes;
pub mod cartridge;
pub mod cli;
pub mod cpu;
pub mod cpu_spec;
pub mod frontend;
pub mod gameboy;
pub mod input;
pub mod isa;
pub mod log;
pub mod memory;
pub mod mmu;
pub mod opcode;
pub mod ppu;
pub mod registers;
pub mod serial;
pub mod text;
pub mod timer;

verus! {

} // verus!
