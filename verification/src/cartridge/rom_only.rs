//! ROM-only mapper (cartridge type 0x00).
//!
//! Up to 32 KiB of ROM, no RAM, no banking.  The CPU sees the ROM directly
//! at 0x0000–0x7FFF; reads past the image or at the RAM window
//! (0xA000–0xBFFF) return open-bus 0xFF.  Writes are ignored.
use vstd::prelude::*;
use crate::memory::Memory;
use crate::cartridge::{Cartridge, CartridgeInfo, rom_byte, read_rom_at};

verus! {

pub struct RomOnly {
    rom: Vec<u8>,
    info: CartridgeInfo,
}

impl RomOnly {
    pub closed spec fn rom_image(self) -> Seq<u8> {
        self.rom@
    }

    pub fn new(rom: Vec<u8>, info: CartridgeInfo) -> (c: RomOnly)
        ensures
            c.rom_image() == rom@,
            c.header_info() == info,
    {
        RomOnly { rom, info }
    }
}

impl RomOnly {
    /// Read `address` (cartridge reads have no side effects).
    pub fn peek_byte(&self, address: u16) -> (value: u8)
        ensures
            value == self.peek(address),
    {
        match address {
            0x0000..=0x7FFF => read_rom_at(&self.rom, address as usize),
            _ => 0xFF,  // no RAM, nothing else mapped
        }
    }
}

impl Memory for RomOnly {
    open spec fn inv(&self) -> bool {
        true
    }

    closed spec fn peek(&self, address: u16) -> u8 {
        if address <= 0x7FFF {
            rom_byte(self.rom@, address as int)
        } else {
            0xFF
        }
    }

    open spec fn read_effect(self, address: u16) -> Self {
        self
    }

    closed spec fn poke(self, address: u16, value: u8) -> Self {
        self
    }

    fn read_byte(&mut self, address: u16) -> (value: u8) {
        self.peek_byte(address)
    }

    fn write_byte(&mut self, address: u16, value: u8) {
        // ROM-only cartridges ignore all writes.
    }
}

impl Cartridge for RomOnly {
    closed spec fn header_info(&self) -> CartridgeInfo {
        self.info
    }

    closed spec fn battery_ram(&self) -> Option<Seq<u8>> {
        None
    }

    closed spec fn save_loaded(self, data: Seq<u8>) -> Self {
        self
    }

    fn info(&self) -> (info: &CartridgeInfo) {
        &self.info
    }

    fn save_data(&self) -> (data: Option<&[u8]>) {
        None
    }

    fn load_save_data(&mut self, data: &[u8]) {
    }
}

/// A ROM-only cartridge has no RAM to save.
pub proof fn lemma_nothing_to_save(c: RomOnly)
    ensures
        c.battery_ram() is None,
{
}

} // verus!
