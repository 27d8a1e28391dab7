//! MBC3 mapper (cartridge types 0x0F–0x13).
//!
//! Up to 2 MiB of ROM (128 banks × 16 KiB) and up to 32 KiB of RAM (4
//! banks × 8 KiB).  There is no banking mode: 0x0000–0x3FFF always shows
//! bank 0, and the RAM bank is selected independently of the ROM bank.
//!
//! The real-time clock is not implemented: selecting an RTC register
//! (0x08–0x0C) maps nothing into the RAM window (reads 0xFF, writes are
//! ignored), and the latch strobe at 0x6000–0x7FFF is ignored.
//!
//! | CPU address   | Write target                                     |
//! |---------------|--------------------------------------------------|
//! | 0x0000–0x1FFF | RAM + RTC enable (0x0A enables, else disables)   |
//! | 0x2000–0x3FFF | 7-bit ROM bank number (0 maps to 1)              |
//! | 0x4000–0x5FFF | RAM bank (0x00–0x03) or RTC register (0x08–0x0C) |
//! | 0x6000–0x7FFF | RTC latch strobe (ignored)                       |
//! | 0xA000–0xBFFF | Cartridge RAM or RTC register (when enabled)     |
use vstd::prelude::*;
use crate::memory::Memory;
use crate::cartridge::{
    lemma_loaded_contents, Cartridge, CartridgeInfo, CartRam, rom_byte, read_rom_at, MAX_RAM_SIZE,
    ROM_BANK_SIZE,
};
use crate::cartridge::mbc1::ram_offset;

verus! {

pub struct Mbc3 {
    rom: Vec<u8>,
    ram: CartRam,
    info: CartridgeInfo,
    /// 7-bit ROM bank (1–127); a write of 0 selects bank 1.
    rom_bank: u8,
    /// What 0xA000–0xBFFF maps: 0x00–0x03 RAM bank N, 0x08–0x0C an RTC
    /// register (not implemented); kept as written.
    ram_bank: u8,
    ram_enabled: bool,
}

impl Mbc3 {
    pub closed spec fn rom_image(self) -> Seq<u8> {
        self.rom@
    }

    pub closed spec fn is_fresh(self) -> bool {
        &&& self.rom_bank == 1
        &&& self.ram_bank == 0
        &&& !self.ram_enabled
        &&& self.ram.len() == self.info.ram_size
        &&& self.ram.contents() == Seq::new(self.ram.len(), |i: int| 0u8)
    }

    pub closed spec fn ram_is_enabled(self) -> bool {
        self.ram_enabled
    }

    /// The RAM bank register, as written.
    pub closed spec fn ram_bank(self) -> u8 {
        self.ram_bank
    }

    pub closed spec fn ram_len(self) -> nat {
        self.ram.len()
    }

    pub closed spec fn ram_count(self) -> int {
        if self.info.ram_banks > 1 {
            self.info.ram_banks as int
        } else {
            1
        }
    }

    pub closed spec fn ram_index(self, offset: int) -> int {
        self.ram_bank * (self.ram.len() as int / self.ram_count()) + offset
    }

    pub fn new(rom: Vec<u8>, info: CartridgeInfo) -> (c: Mbc3)
        requires
            info.ram_size <= MAX_RAM_SIZE,
        ensures
            c.rom_image() == rom@,
            c.header_info() == info,
            c.is_fresh(),
    {
        let ram = CartRam::new(info.ram_size);
        Mbc3 { rom, ram, info, rom_bank: 1, ram_bank: 0, ram_enabled: false }
    }

    fn ram_bank_count(&self) -> (n: usize)
        ensures
            n == self.ram_count(),
    {
        if self.info.ram_banks > 1 {
            self.info.ram_banks
        } else {
            1
        }
    }
}

impl Mbc3 {
    /// Read `address` (cartridge reads have no side effects).
    pub fn peek_byte(&self, address: u16) -> (value: u8)
        ensures
            value == self.peek(address),
    {
        match address {
            // Fixed ROM bank 0.
            0x0000..=0x3FFF => read_rom_at(&self.rom, address as usize),
            0x4000..=0x7FFF => read_rom_at(
                &self.rom,
                self.rom_bank as usize * ROM_BANK_SIZE + (address - 0x4000) as usize,
            ),
            0xA000..=0xBFFF => {
                if !self.ram_enabled {
                    return 0xFF;
                }
                match self.ram_bank {
                    0x00..=0x03 => {
                        let index = ram_offset(self.ram_bank as usize, self.ram.size(), self.ram_bank_count(), address - 0xA000);
                        self.ram.read(index)
                    },
                    _ => 0xFF,  // RTC register (not implemented) or unmapped
                }
            },
            _ => 0xFF,
        }
    }
}

impl Memory for Mbc3 {
    open spec fn inv(&self) -> bool {
        true
    }

    closed spec fn peek(&self, address: u16) -> u8 {
        if address <= 0x3FFF {
            rom_byte(self.rom@, address as int)
        } else if address <= 0x7FFF {
            rom_byte(self.rom@, self.rom_bank * ROM_BANK_SIZE + (address - 0x4000))
        } else if 0xA000 <= address <= 0xBFFF {
            if !self.ram_enabled || self.ram_bank > 3 {
                0xFF
            } else {
                self.ram.byte_at(self.ram_index(address - 0xA000))
            }
        } else {
            0xFF
        }
    }

    open spec fn read_effect(self, address: u16) -> Self {
        self
    }

    closed spec fn poke(self, address: u16, value: u8) -> Self {
        if address <= 0x1FFF {
            Mbc3 { ram_enabled: (value & 0x0F) == 0x0A, ..self }
        } else if address <= 0x3FFF {
            let bank = value & 0x7F;
            Mbc3 { rom_bank: if bank == 0 { 1 } else { bank }, ..self }
        } else if address <= 0x5FFF {
            Mbc3 { ram_bank: value, ..self }
        } else if 0xA000 <= address <= 0xBFFF && self.ram_enabled && self.ram_bank <= 3 {
            Mbc3 { ram: self.ram.written(self.ram_index(address - 0xA000), value), ..self }
        } else {
            self
        }
    }

    fn read_byte(&mut self, address: u16) -> (value: u8) {
        self.peek_byte(address)
    }

    fn write_byte(&mut self, address: u16, value: u8) {
        match address {
            0x0000..=0x1FFF => {
                self.ram_enabled = (value & 0x0F) == 0x0A;
            },
            0x2000..=0x3FFF => {
                // 7-bit ROM bank; writing 0 selects bank 1.
                let bank = value & 0x7F;
                self.rom_bank = if bank == 0 { 1 } else { bank };
            },
            0x4000..=0x5FFF => {
                self.ram_bank = value;
            },
            0x6000..=0x7FFF => {},  // RTC latch strobe: ignored
            0xA000..=0xBFFF => {
                if self.ram_enabled && self.ram_bank <= 0x03 {
                    let index = ram_offset(self.ram_bank as usize, self.ram.size(), self.ram_bank_count(), address - 0xA000);
                    self.ram.write(index, value);
                }
            },
            _ => {},
        }
    }
}

impl Cartridge for Mbc3 {
    closed spec fn header_info(&self) -> CartridgeInfo {
        self.info
    }

    closed spec fn battery_ram(&self) -> Option<Seq<u8>> {
        if self.info.battery && self.ram.len() > 0 {
            Some(self.ram.contents())
        } else {
            None
        }
    }

    closed spec fn save_loaded(self, data: Seq<u8>) -> Self {
        Mbc3 { ram: self.ram.loaded(data), ..self }
    }

    fn info(&self) -> (info: &CartridgeInfo) {
        &self.info
    }

    fn save_data(&self) -> (data: Option<&[u8]>) {
        if self.info.battery && self.ram.size() > 0 {
            Some(self.ram.as_slice())
        } else {
            None
        }
    }

    fn load_save_data(&mut self, data: &[u8]) {
        self.ram.load(data);
    }
}

/// A save file of the battery RAM's size, once restored, is exactly what
/// the cartridge then saves.
pub proof fn lemma_save_round_trip(c: Mbc3, data: Seq<u8>)
    requires
        c.battery_ram() matches Some(ram) && ram.len() == data.len(),
    ensures
        c.save_loaded(data).battery_ram() == Some(data),
{
    lemma_loaded_contents(c.ram, data);
}


/// Writing a value whose low nibble is 0xA to 0x0000–0x1FFF enables the
/// RAM; any other value disables it.  Nothing else changes.
pub proof fn lemma_ram_enable(c: Mbc3, control: u16, value: u8)
    requires
        control <= 0x1FFF,
    ensures
        c.poke(control, value).ram_is_enabled() == (value & 0x0F == 0x0A),
        c.poke(control, value).ram_bank() == c.ram_bank(),
        c.poke(control, value).ram_len() == c.ram_len(),
        c.poke(control, value).ram_index(0) == c.ram_index(0),
{
}

/// With RAM enabled and RAM bank 0–3 selected, a byte written to the RAM window reads back
/// (within the RAM).
pub proof fn lemma_ram_write_read_back(c: Mbc3, address: u16, value: u8)
    requires
        0xA000 <= address <= 0xBFFF,
        c.ram_is_enabled(),
        c.ram_bank() <= 3,
        c.ram_len() <= MAX_RAM_SIZE,
        0 <= c.ram_index(address - 0xA000) < c.ram_len(),
    ensures
        c.poke(address, value).peek(address) == value,
{
    crate::cartridge::lemma_ram_read_back(c.ram, c.ram_index(address - 0xA000), value);
}

/// With RAM disabled, the RAM window reads 0xFF and writes to it change
/// nothing.
pub proof fn lemma_ram_disabled(c: Mbc3, address: u16, value: u8)
    requires
        0xA000 <= address <= 0xBFFF,
        !c.ram_is_enabled(),
    ensures
        c.peek(address) == 0xFF,
        c.poke(address, value) == c,
{
}

/// A fresh cartridge (as `CartridgeKind::from_bytes` builds it) has RAM
/// disabled, RAM bank 0 selected and ROM bank 1 in the upper window.
pub proof fn lemma_fresh(c: Mbc3, offset: u16)
    requires
        c.is_fresh(),
        offset < 0x4000,
    ensures
        !c.ram_is_enabled(),
        c.ram_bank() == 0,
        c.peek((0x4000 + offset) as u16) == rom_byte(c.rom_image(), ROM_BANK_SIZE + offset),
{
}

/// The lower window always shows bank 0; writing `value` to 0x2000–0x3FFF
/// maps bank `value & 0x7F` (0 selects 1) into the upper window.
pub proof fn lemma_rom_reads(c: Mbc3, address: u16, value: u8, offset: u16)
    requires
        0x2000 <= address <= 0x3FFF,
        offset < 0x4000,
    ensures
        c.peek(offset) == rom_byte(c.rom_image(), offset as int),
        ({
            let bank: int = if value & 0x7F == 0 { 1 } else { (value & 0x7F) as int };
            c.poke(address, value).peek((0x4000 + offset) as u16) == rom_byte(
                c.rom_image(),
                bank * ROM_BANK_SIZE + offset,
            )
        }),
        c.poke(address, value).ram_is_enabled() == c.ram_is_enabled(),
        c.poke(address, value).ram_bank() == c.ram_bank(),
{
}

/// With the RAM bank register at 0x08–0x0C (a real-time-clock register,
/// not modelled) or any value above 3, the RAM window reads 0xFF and
/// writes to it change nothing.
pub proof fn lemma_clock_registers_read_ff(c: Mbc3, address: u16, value: u8)
    requires
        0xA000 <= address <= 0xBFFF,
        c.ram_bank() > 3,
    ensures
        c.peek(address) == 0xFF,
        c.poke(address, value) == c,
{
}

/// Writing `value` to 0x4000–0x5FFF sets the RAM bank register.
pub proof fn lemma_ram_bank_write(c: Mbc3, address: u16, value: u8)
    requires
        0x4000 <= address <= 0x5FFF,
    ensures
        c.poke(address, value).ram_bank() == value,
        c.poke(address, value).ram_is_enabled() == c.ram_is_enabled(),
{
}

} // verus!
