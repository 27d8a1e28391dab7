//! MBC5 mapper (cartridge types 0x19–0x1E).
//!
//! Up to 8 MiB of ROM (512 banks × 16 KiB) and up to 128 KiB of RAM (16
//! banks × 8 KiB).  The ROM bank number has 9 bits spread over two write
//! addresses; bank 0 is a valid choice for the upper window (no remap).
//! Bit 3 of the RAM bank register drives the rumble motor on RUMBLE carts;
//! it is masked into the bank number and otherwise ignored.
//!
//! | CPU address   | Write target                                     |
//! |---------------|--------------------------------------------------|
//! | 0x0000–0x1FFF | RAM enable (0x0A enables, else disables)         |
//! | 0x2000–0x2FFF | Lower 8 bits of the 9-bit ROM bank number        |
//! | 0x3000–0x3FFF | Bit 8 of the ROM bank number                     |
//! | 0x4000–0x5FFF | 4-bit RAM bank number                            |
//! | 0xA000–0xBFFF | Cartridge RAM (when enabled)                     |
use vstd::prelude::*;
use crate::memory::Memory;
use crate::cartridge::{
    lemma_loaded_contents, Cartridge, CartridgeInfo, CartRam, rom_byte, read_rom_at, MAX_RAM_SIZE,
    ROM_BANK_SIZE,
};
use crate::cartridge::mbc1::ram_offset;

verus! {

pub struct Mbc5 {
    rom: Vec<u8>,
    ram: CartRam,
    info: CartridgeInfo,
    /// 9-bit ROM bank number (0–511).
    rom_bank: u16,
    /// 4-bit RAM bank number (0–15).
    ram_bank: u8,
    ram_enabled: bool,
}

impl Mbc5 {
    pub closed spec fn rom_image(self) -> Seq<u8> {
        self.rom@
    }

    pub closed spec fn is_fresh(self) -> bool {
        &&& self.rom_bank == 0
        &&& self.ram_bank == 0
        &&& !self.ram_enabled
        &&& self.ram.len() == self.info.ram_size
        &&& self.ram.contents() == Seq::new(self.ram.len(), |i: int| 0u8)
    }

    /// The ROM bank shown at 0x4000–0x7FFF.
    pub closed spec fn bank(self) -> u16 {
        self.rom_bank
    }

    pub closed spec fn ram_is_enabled(self) -> bool {
        self.ram_enabled
    }

    /// The RAM bank register, as written.
    pub closed spec fn ram_bank(self) -> u8 {
        self.ram_bank
    }

    pub closed spec fn ram_len(self) -> nat {
        self.ram.len()
    }

    pub closed spec fn ram_count(self) -> int {
        if self.info.ram_banks > 1 {
            self.info.ram_banks as int
        } else {
            1
        }
    }

    pub closed spec fn ram_index(self, offset: int) -> int {
        self.ram_bank * (self.ram.len() as int / self.ram_count()) + offset
    }

    pub fn new(rom: Vec<u8>, info: CartridgeInfo) -> (c: Mbc5)
        requires
            info.ram_size <= MAX_RAM_SIZE,
        ensures
            c.rom_image() == rom@,
            c.header_info() == info,
            c.is_fresh(),
    {
        let ram = CartRam::new(info.ram_size);
        Mbc5 { rom, ram, info, rom_bank: 0, ram_bank: 0, ram_enabled: false }
    }

    fn ram_bank_count(&self) -> (n: usize)
        ensures
            n == self.ram_count(),
    {
        if self.info.ram_banks > 1 {
            self.info.ram_banks
        } else {
            1
        }
    }
}

impl Mbc5 {
    /// Read `address` (cartridge reads have no side effects).
    pub fn peek_byte(&self, address: u16) -> (value: u8)
        ensures
            value == self.peek(address),
    {
        match address {
            // Fixed ROM bank 0.
            0x0000..=0x3FFF => read_rom_at(&self.rom, address as usize),
            0x4000..=0x7FFF => read_rom_at(
                &self.rom,
                self.rom_bank as usize * ROM_BANK_SIZE + (address - 0x4000) as usize,
            ),
            0xA000..=0xBFFF => {
                if !self.ram_enabled {
                    return 0xFF;
                }
                let index = ram_offset(self.ram_bank as usize, self.ram.size(), self.ram_bank_count(), address - 0xA000);
                self.ram.read(index)
            },
            _ => 0xFF,
        }
    }
}

impl Memory for Mbc5 {
    open spec fn inv(&self) -> bool {
        true
    }

    closed spec fn peek(&self, address: u16) -> u8 {
        if address <= 0x3FFF {
            rom_byte(self.rom@, address as int)
        } else if address <= 0x7FFF {
            rom_byte(self.rom@, self.rom_bank * ROM_BANK_SIZE + (address - 0x4000))
        } else if 0xA000 <= address <= 0xBFFF {
            if !self.ram_enabled {
                0xFF
            } else {
                self.ram.byte_at(self.ram_index(address - 0xA000))
            }
        } else {
            0xFF
        }
    }

    open spec fn read_effect(self, address: u16) -> Self {
        self
    }

    closed spec fn poke(self, address: u16, value: u8) -> Self {
        if address <= 0x1FFF {
            Mbc5 { ram_enabled: (value & 0x0F) == 0x0A, ..self }
        } else if address <= 0x2FFF {
            Mbc5 { rom_bank: (self.rom_bank & 0x100) | (value as u16), ..self }
        } else if address <= 0x3FFF {
            Mbc5 { rom_bank: (self.rom_bank & 0x0FF) | (((value as u16) & 0x01) << 8), ..self }
        } else if address <= 0x5FFF {
            Mbc5 { ram_bank: value & 0x0F, ..self }
        } else if 0xA000 <= address <= 0xBFFF && self.ram_enabled {
            Mbc5 { ram: self.ram.written(self.ram_index(address - 0xA000), value), ..self }
        } else {
            self
        }
    }

    fn read_byte(&mut self, address: u16) -> (value: u8) {
        self.peek_byte(address)
    }

    fn write_byte(&mut self, address: u16, value: u8) {
        match address {
            0x0000..=0x1FFF => {
                self.ram_enabled = (value & 0x0F) == 0x0A;
            },
            0x2000..=0x2FFF => {
                // Lower 8 bits of the ROM bank number.
                self.rom_bank = (self.rom_bank & 0x100) | value as u16;
            },
            0x3000..=0x3FFF => {
                // Bit 8 of the ROM bank number; only bit 0 of the value counts.
                self.rom_bank = (self.rom_bank & 0x0FF) | ((value as u16 & 0x01) << 8);
            },
            0x4000..=0x5FFF => {
                // Lower 4 bits select the RAM bank (bit 3 = rumble on RUMBLE carts).
                self.ram_bank = value & 0x0F;
            },
            0xA000..=0xBFFF => {
                if self.ram_enabled {
                    let index = ram_offset(self.ram_bank as usize, self.ram.size(), self.ram_bank_count(), address - 0xA000);
                    self.ram.write(index, value);
                }
            },
            _ => {},
        }
    }
}

impl Cartridge for Mbc5 {
    closed spec fn header_info(&self) -> CartridgeInfo {
        self.info
    }

    closed spec fn battery_ram(&self) -> Option<Seq<u8>> {
        if self.info.battery && self.ram.len() > 0 {
            Some(self.ram.contents())
        } else {
            None
        }
    }

    closed spec fn save_loaded(self, data: Seq<u8>) -> Self {
        Mbc5 { ram: self.ram.loaded(data), ..self }
    }

    fn info(&self) -> (info: &CartridgeInfo) {
        &self.info
    }

    fn save_data(&self) -> (data: Option<&[u8]>) {
        if self.info.battery && self.ram.size() > 0 {
            Some(self.ram.as_slice())
        } else {
            None
        }
    }

    fn load_save_data(&mut self, data: &[u8]) {
        self.ram.load(data);
    }
}

/// The two bank registers compose a 9-bit bank: writing `lo` to 0x2000 and
/// `hi` to 0x3000 (either order) selects bank `(hi & 1) × 256 + lo`.
pub proof fn lemma_nine_bit_bank(c: Mbc5, lo: u8, hi: u8)
    ensures
        c.poke(0x2000, lo).poke(0x3000, hi).bank() == (hi & 1) as int * 256 + lo as int,
        c.poke(0x3000, hi).poke(0x2000, lo).bank() == (hi & 1) as int * 256 + lo as int,
{
    let b = c.rom_bank;
    assert(((((b & 0x100) | (lo as u16)) & 0x0FF) | (((hi as u16) & 0x01) << 8)) == (hi & 1) as u16 * 256 + lo as u16) by (bit_vector);
    assert((((b & 0x0FF) | (((hi as u16) & 0x01) << 8)) & 0x100) | (lo as u16) == (hi & 1) as u16 * 256 + lo as u16) by (bit_vector);
}

/// A save file of the battery RAM's size, once restored, is exactly what
/// the cartridge then saves.
pub proof fn lemma_save_round_trip(c: Mbc5, data: Seq<u8>)
    requires
        c.battery_ram() matches Some(ram) && ram.len() == data.len(),
    ensures
        c.save_loaded(data).battery_ram() == Some(data),
{
    lemma_loaded_contents(c.ram, data);
}


/// Writing a value whose low nibble is 0xA to 0x0000–0x1FFF enables the
/// RAM; any other value disables it.  Nothing else changes.
pub proof fn lemma_ram_enable(c: Mbc5, control: u16, value: u8)
    requires
        control <= 0x1FFF,
    ensures
        c.poke(control, value).ram_is_enabled() == (value & 0x0F == 0x0A),
        c.poke(control, value).ram_bank() == c.ram_bank(),
        c.poke(control, value).ram_len() == c.ram_len(),
        c.poke(control, value).ram_index(0) == c.ram_index(0),
{
}

/// With RAM enabled, a byte written to the RAM window reads back
/// (within the RAM).
pub proof fn lemma_ram_write_read_back(c: Mbc5, address: u16, value: u8)
    requires
        0xA000 <= address <= 0xBFFF,
        c.ram_is_enabled(),
        c.ram_len() <= MAX_RAM_SIZE,
        0 <= c.ram_index(address - 0xA000) < c.ram_len(),
    ensures
        c.poke(address, value).peek(address) == value,
{
    crate::cartridge::lemma_ram_read_back(c.ram, c.ram_index(address - 0xA000), value);
}

/// With RAM disabled, the RAM window reads 0xFF and writes to it change
/// nothing.
pub proof fn lemma_ram_disabled(c: Mbc5, address: u16, value: u8)
    requires
        0xA000 <= address <= 0xBFFF,
        !c.ram_is_enabled(),
    ensures
        c.peek(address) == 0xFF,
        c.poke(address, value) == c,
{
}

/// A fresh cartridge (as `CartridgeKind::from_bytes` builds it) has RAM
/// disabled and ROM bank 0 in the upper window (MBC5 does not remap bank 0).
pub proof fn lemma_fresh(c: Mbc5)
    requires
        c.is_fresh(),
    ensures
        !c.ram_is_enabled(),
        c.ram_bank() == 0,
        c.bank() == 0,
{
}

/// The lower window always shows bank 0 and the upper window shows bank
/// `bank()`, with no remapping of bank 0.
pub proof fn lemma_rom_reads(c: Mbc5, offset: u16)
    requires
        offset < 0x4000,
    ensures
        c.peek(offset) == rom_byte(c.rom_image(), offset as int),
        c.peek((0x4000 + offset) as u16) == rom_byte(c.rom_image(), c.bank() * ROM_BANK_SIZE + offset),
{
}

} // verus!
