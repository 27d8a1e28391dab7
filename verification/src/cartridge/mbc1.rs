//! MBC1 mapper (cartridge types 0x01–0x03).
//!
//! Up to 2 MiB of ROM (128 banks × 16 KiB) and up to 32 KiB of RAM (4
//! banks × 8 KiB).  A banking mode switch decides whether the upper two
//! bank bits apply to ROM or to RAM.
//!
//! | CPU address   | Write target                                    |
//! |---------------|-------------------------------------------------|
//! | 0x0000–0x1FFF | RAM enable (0x0A enables, anything else disables)|
//! | 0x2000–0x3FFF | Lower 5 bits of the ROM bank number             |
//! | 0x4000–0x5FFF | Upper 2 bits (ROM in mode 0, RAM in mode 1)     |
//! | 0x6000–0x7FFF | Banking mode: 0 = ROM mode, 1 = RAM mode        |
//! | 0xA000–0xBFFF | Cartridge RAM (when enabled)                    |
use vstd::prelude::*;
use crate::memory::Memory;
use crate::cartridge::{
    lemma_loaded_contents, Cartridge, CartridgeInfo, CartRam, rom_byte, read_rom_at, MAX_RAM_SIZE, ROM_BANK_SIZE,
};

verus! {

/// In ROM mode (the default) all seven bank bits drive the upper ROM window
/// and RAM is fixed to bank 0.  In RAM mode the upper two bits select the
/// RAM bank and also which 512 KiB half of ROM the lower window shows.
#[derive(Debug, Clone, Copy, PartialEq, Eq, Structural)]
pub enum BankingMode {
    Rom,
    Ram,
}

pub struct Mbc1 {
    rom: Vec<u8>,
    ram: CartRam,
    info: CartridgeInfo,
    /// Lower 5 bits of the ROM bank, written at 0x2000–0x3FFF.
    rom_bank_low5: u8,
    /// Upper 2 bits, written at 0x4000–0x5FFF.
    rom_bank_high2: u8,
    ram_enabled: bool,
    banking_mode: BankingMode,
}

impl Mbc1 {
    pub closed spec fn rom_image(self) -> Seq<u8> {
        self.rom@
    }

    /// Power-on banking state with cleared RAM of the header's size.
    pub closed spec fn is_fresh(self) -> bool {
        &&& self.rom_bank_low5 == 1
        &&& self.rom_bank_high2 == 0
        &&& !self.ram_enabled
        &&& self.banking_mode == BankingMode::Rom
        &&& self.ram.len() == self.info.ram_size
        &&& self.ram.contents() == Seq::new(self.ram.len(), |i: int| 0u8)
    }

    pub closed spec fn ram_is_enabled(self) -> bool {
        self.ram_enabled
    }

    pub closed spec fn mode(self) -> BankingMode {
        self.banking_mode
    }

    /// The two bits written at 0x4000–0x5FFF.
    pub closed spec fn upper_bits(self) -> u8 {
        self.rom_bank_high2
    }

    pub closed spec fn ram_len(self) -> nat {
        self.ram.len()
    }

    pub closed spec fn rom_count(self) -> int {
        if self.info.rom_banks > 1 {
            self.info.rom_banks as int
        } else {
            1
        }
    }

    pub closed spec fn ram_count(self) -> int {
        if self.info.ram_banks > 1 {
            self.info.ram_banks as int
        } else {
            1
        }
    }

    /// Bank shown at 0x0000–0x3FFF: 0 in ROM mode; in RAM mode the upper
    /// two bits select a 512 KiB block.
    pub closed spec fn lower_bank(self) -> int {
        match self.banking_mode {
            BankingMode::Rom => 0,
            BankingMode::Ram => (((self.rom_bank_high2 as usize) << 5usize) as int) % self.rom_count(),
        }
    }

    /// Bank shown at 0x4000–0x7FFF: all seven bits in ROM mode, the lower
    /// five in RAM mode; bank 0 maps to bank 1 (hardware quirk).
    pub closed spec fn upper_bank(self) -> int {
        let bank: usize = match self.banking_mode {
            BankingMode::Rom => ((self.rom_bank_high2 as usize) << 5usize) | (self.rom_bank_low5 as usize),
            BankingMode::Ram => self.rom_bank_low5 as usize,
        };
        let wrapped = bank as int % self.rom_count();
        if wrapped == 0 && self.rom_count() > 1 {
            1
        } else {
            wrapped
        }
    }

    /// RAM bank: 0 in ROM mode, the upper two bits in RAM mode.
    pub closed spec fn ram_bank(self) -> int {
        match self.banking_mode {
            BankingMode::Rom => 0,
            BankingMode::Ram => self.rom_bank_high2 as int % self.ram_count(),
        }
    }

    pub closed spec fn ram_index(self, bank: int, offset: int) -> int {
        bank * (self.ram.len() as int / self.ram_count()) + offset
    }

    pub fn new(rom: Vec<u8>, info: CartridgeInfo) -> (c: Mbc1)
        requires
            info.ram_size <= MAX_RAM_SIZE,
        ensures
            c.rom_image() == rom@,
            c.header_info() == info,
            c.is_fresh(),
    {
        let ram = CartRam::new(info.ram_size);
        Mbc1 {
            rom,
            ram,
            info,
            rom_bank_low5: 1,  // power-on default: bank 1
            rom_bank_high2: 0,
            ram_enabled: false,
            banking_mode: BankingMode::Rom,
        }
    }

    fn rom_bank_count(&self) -> (n: usize)
        ensures
            n == self.rom_count(),
    {
        if self.info.rom_banks > 1 {
            self.info.rom_banks
        } else {
            1
        }
    }

    fn ram_bank_count(&self) -> (n: usize)
        ensures
            n == self.ram_count(),
    {
        if self.info.ram_banks > 1 {
            self.info.ram_banks
        } else {
            1
        }
    }

    fn wrap_rom(&self, bank: usize) -> (b: usize)
        ensures
            b == bank as int % self.rom_count(),
            b <= bank,
    {
        let count = self.rom_bank_count();
        proof {
            assert(bank % count <= bank) by (nonlinear_arith)
                requires
                    count >= 1,
            ;
        }
        bank % count
    }

    fn lower_rom_bank(&self) -> (b: usize)
        ensures
            b == self.lower_bank(),
            b <= 8191,
    {
        match self.banking_mode {
            BankingMode::Rom => 0,
            BankingMode::Ram => {
                proof {
                    lemma_bank_bits(self.rom_bank_high2, self.rom_bank_low5);
                }
                self.wrap_rom((self.rom_bank_high2 as usize) << 5)
            },
        }
    }

    fn upper_rom_bank(&self) -> (b: usize)
        ensures
            b == self.upper_bank(),
            b <= 8191,
    {
        proof {
            lemma_bank_bits(self.rom_bank_high2, self.rom_bank_low5);
        }
        let bank = match self.banking_mode {
            BankingMode::Rom => ((self.rom_bank_high2 as usize) << 5) | self.rom_bank_low5 as usize,
            BankingMode::Ram => self.rom_bank_low5 as usize,
        };
        let bank = self.wrap_rom(bank);
        if bank == 0 && self.rom_bank_count() > 1 {
            1
        } else {
            bank
        }
    }

    fn current_ram_bank(&self) -> (b: usize)
        ensures
            b == self.ram_bank(),
            b <= 255,
    {
        match self.banking_mode {
            BankingMode::Rom => 0,
            BankingMode::Ram => {
                let count = self.ram_bank_count();
                let h = self.rom_bank_high2 as usize;
                proof {
                    assert(h % count <= h) by (nonlinear_arith)
                        requires
                            count >= 1,
                    ;
                }
                h % count
            },
        }
    }

    fn read_rom(&self, bank: usize, offset: u16) -> (b: u8)
        requires
            bank <= 8191,
            offset < 0x4000,
        ensures
            b == rom_byte(self.rom@, bank * ROM_BANK_SIZE + offset),
    {
        read_rom_at(&self.rom, bank * ROM_BANK_SIZE + offset as usize)
    }
}

impl Mbc1 {
    /// Read `address` (cartridge reads have no side effects).
    pub fn peek_byte(&self, address: u16) -> (value: u8)
        ensures
            value == self.peek(address),
    {
        match address {
            0x0000..=0x3FFF => self.read_rom(self.lower_rom_bank(), address),
            0x4000..=0x7FFF => self.read_rom(self.upper_rom_bank(), address - 0x4000),
            0xA000..=0xBFFF => {
                if !self.ram_enabled {
                    return 0xFF;
                }
                let index = ram_offset(self.current_ram_bank(), self.ram.size(), self.ram_bank_count(), address - 0xA000);
                self.ram.read(index)
            },
            _ => 0xFF,
        }
    }
}

impl Memory for Mbc1 {
    open spec fn inv(&self) -> bool {
        true
    }

    closed spec fn peek(&self, address: u16) -> u8 {
        if address <= 0x3FFF {
            rom_byte(self.rom@, self.lower_bank() * ROM_BANK_SIZE + address)
        } else if address <= 0x7FFF {
            rom_byte(self.rom@, self.upper_bank() * ROM_BANK_SIZE + (address - 0x4000))
        } else if 0xA000 <= address <= 0xBFFF {
            if !self.ram_enabled {
                0xFF
            } else {
                self.ram.byte_at(self.ram_index(self.ram_bank(), address - 0xA000))
            }
        } else {
            0xFF
        }
    }

    open spec fn read_effect(self, address: u16) -> Self {
        self
    }

    closed spec fn poke(self, address: u16, value: u8) -> Self {
        if address <= 0x1FFF {
            Mbc1 { ram_enabled: (value & 0x0F) == 0x0A && self.ram.len() > 0, ..self }
        } else if address <= 0x3FFF {
            let v = value & 0x1F;
            Mbc1 { rom_bank_low5: if v == 0 { 1 } else { v }, ..self }
        } else if address <= 0x5FFF {
            Mbc1 { rom_bank_high2: value & 0x03, ..self }
        } else if address <= 0x7FFF {
            Mbc1 {
                banking_mode: if value & 0x01 == 0 { BankingMode::Rom } else { BankingMode::Ram },
                ..self
            }
        } else if 0xA000 <= address <= 0xBFFF && self.ram_enabled {
            Mbc1 {
                ram: self.ram.written(self.ram_index(self.ram_bank(), address - 0xA000), value),
                ..self
            }
        } else {
            self
        }
    }

    fn read_byte(&mut self, address: u16) -> (value: u8) {
        self.peek_byte(address)
    }

    fn write_byte(&mut self, address: u16, value: u8) {
        match address {
            0x0000..=0x1FFF => {
                // 0x0A enables RAM; any other value disables it.
                self.ram_enabled = (value & 0x0F) == 0x0A && self.ram.size() > 0;
            },
            0x2000..=0x3FFF => {
                // Lower 5 bits of the ROM bank; 0 is treated as 1.
                let v = value & 0x1F;
                self.rom_bank_low5 = if v == 0 { 1 } else { v };
            },
            0x4000..=0x5FFF => {
                self.rom_bank_high2 = value & 0x03;
            },
            0x6000..=0x7FFF => {
                self.banking_mode = if value & 0x01 == 0 { BankingMode::Rom } else { BankingMode::Ram };
            },
            0xA000..=0xBFFF => {
                if self.ram_enabled {
                    let index = ram_offset(self.current_ram_bank(), self.ram.size(), self.ram_bank_count(), address - 0xA000);
                    self.ram.write(index, value);
                }
            },
            _ => {},
        }
    }
}

proof fn lemma_bank_bits(high: u8, low: u8)
    by (bit_vector)
    ensures
        ((high as usize) << 5usize) <= 8160,
        (((high as usize) << 5usize) | (low as usize)) <= 8191,
{
}

/// Index into cartridge RAM of `offset` within bank `bank`, the RAM being
/// split into `count` equal banks.
pub(crate) fn ram_offset(bank: usize, ram_size: usize, count: usize, offset: u16) -> (index: usize)
    requires
        bank <= 255,
        ram_size <= MAX_RAM_SIZE,
        count >= 1,
    ensures
        index == bank * (ram_size as int / count as int) + offset,
{
    let bank_size = ram_size / count;
    proof {
        assert(bank_size <= ram_size) by (nonlinear_arith)
            requires
                count >= 1,
                bank_size == ram_size / count,
        ;
        assert(bank * bank_size <= 255 * MAX_RAM_SIZE) by (nonlinear_arith)
            requires
                bank <= 255,
                bank_size <= MAX_RAM_SIZE,
        ;
    }
    bank * bank_size + offset as usize
}

impl Cartridge for Mbc1 {
    closed spec fn header_info(&self) -> CartridgeInfo {
        self.info
    }

    closed spec fn battery_ram(&self) -> Option<Seq<u8>> {
        if self.info.battery && self.ram.len() > 0 {
            Some(self.ram.contents())
        } else {
            None
        }
    }

    closed spec fn save_loaded(self, data: Seq<u8>) -> Self {
        Mbc1 { ram: self.ram.loaded(data), ..self }
    }

    fn info(&self) -> (info: &CartridgeInfo) {
        &self.info
    }

    fn save_data(&self) -> (data: Option<&[u8]>) {
        if self.info.battery && self.ram.size() > 0 {
            Some(self.ram.as_slice())
        } else {
            None
        }
    }

    fn load_save_data(&mut self, data: &[u8]) {
        self.ram.load(data);
    }
}

/// With RAM enabled, a byte written to the RAM window reads back (within
/// the RAM).
pub proof fn lemma_ram_write_read_back(c: Mbc1, address: u16, value: u8)
    requires
        0xA000 <= address <= 0xBFFF,
        c.ram_is_enabled(),
        c.ram_len() <= MAX_RAM_SIZE,
        0 <= c.ram_index(c.ram_bank(), address - 0xA000) < c.ram_len(),
    ensures
        c.poke(address, value).peek(address) == value,
{
    crate::cartridge::lemma_ram_read_back(c.ram, c.ram_index(c.ram_bank(), address - 0xA000), value);
}

/// In ROM mode, writing bank number `n` to 0x2000–0x3FFF maps bank
/// `n & 0x1F` (0 → 1) into the upper window, wrapped to the ROM size.
pub proof fn lemma_rom_bank_switch(c: Mbc1, value: u8, offset: u16)
    requires
        c.mode() == BankingMode::Rom,
        c.upper_bits() == 0,
        offset < 0x4000,
    ensures
        ({
            let v = value & 0x1F;
            let n: int = if v == 0 { 1 } else { v as int };
            let wrapped = n % c.rom_count();
            let bank = if wrapped == 0 && c.rom_count() > 1 { 1 } else { wrapped };
            c.poke(0x2000, value).peek((0x4000 + offset) as u16) == rom_byte(c.rom_image(), bank * ROM_BANK_SIZE + offset)
        }),
{
    let v = value & 0x1F;
    let low: u8 = if v == 0 { 1 } else { v };
    assert(((0usize << 5usize) | (low as usize)) == low as usize) by (bit_vector);
}

/// A save file of the battery RAM's size, once restored, is exactly what
/// the cartridge then saves.
pub proof fn lemma_save_round_trip(c: Mbc1, data: Seq<u8>)
    requires
        c.battery_ram() matches Some(ram) && ram.len() == data.len(),
    ensures
        c.save_loaded(data).battery_ram() == Some(data),
{
    lemma_loaded_contents(c.ram, data);
}


/// In ROM banking mode the 0x0000–0x3FFF window shows bank 0: the first
/// 16 KiB of the ROM.
pub proof fn lemma_bank_zero_window(c: Mbc1, address: u16)
    requires
        c.mode() == BankingMode::Rom,
        address <= 0x3FFF,
    ensures
        c.peek(address) == rom_byte(c.rom_image(), address as int),
{
}

/// With RAM disabled, the RAM window reads 0xFF and writes to it change
/// nothing.  Writing a value whose low nibble is not 0xA to 0x0000–0x1FFF
/// disables RAM.
pub proof fn lemma_ram_disabled(c: Mbc1, address: u16, value: u8, control: u16, off: u8)
    requires
        !c.ram_is_enabled(),
        0xA000 <= address <= 0xBFFF,
        control <= 0x1FFF,
        off & 0x0F != 0x0A,
    ensures
        c.peek(address) == 0xFF,
        c.poke(address, value) == c,
        !c.poke(control, off).ram_is_enabled(),
{
}

/// A fresh cartridge (as `CartridgeKind::from_bytes` builds it) is in ROM
/// banking mode with the upper bank bits 0 and RAM disabled.
pub proof fn lemma_fresh(c: Mbc1)
    requires
        c.is_fresh(),
    ensures
        c.mode() == BankingMode::Rom,
        c.upper_bits() == 0,
        !c.ram_is_enabled(),
{
}

/// The number of ROM banks the bank number wraps at: the header's count,
/// at least 1.
pub proof fn lemma_rom_count(c: Mbc1)
    ensures
        c.rom_count() == (if c.header_info().rom_banks > 1 {
            c.header_info().rom_banks as int
        } else {
            1
        }),
{
}

/// Bank switching in the upper window leaves the banking mode, the upper
/// bank bits and the RAM enable as they were.
pub proof fn lemma_bank_write_keeps_mode(c: Mbc1, address: u16, value: u8)
    requires
        0x2000 <= address <= 0x3FFF,
    ensures
        c.poke(address, value).mode() == c.mode(),
        c.poke(address, value).upper_bits() == c.upper_bits(),
        c.poke(address, value).ram_is_enabled() == c.ram_is_enabled(),
        c.poke(address, value).rom_image() == c.rom_image(),
        c.poke(address, value).rom_count() == c.rom_count(),
{
}

proof fn lemma_bank_number(high: u8, low: u8)
    by (bit_vector)
    requires
        high <= 3,
        1 <= low <= 31,
    ensures
        (((high as usize) << 5usize) | (low as usize)) == high as usize * 32 + low as usize,
{
}

/// In ROM banking mode the upper window shows bank `hi × 32 + lo`, where
/// `hi` is the value last written to 0x4000–0x5FFF (two bits) and `lo` the
/// value last written to 0x2000–0x3FFF (five bits, 0 taken as 1), wrapped
/// to the ROM's bank count (a wrap to 0 reads bank 1) — whichever of the
/// two registers was written first.
pub proof fn lemma_upper_window_bank(c: Mbc1, high_at: u16, h: u8, low_at: u16, l: u8, offset: u16)
    requires
        c.mode() == BankingMode::Rom,
        0x4000 <= high_at <= 0x5FFF,
        0x2000 <= low_at <= 0x3FFF,
        offset < 0x4000,
    ensures
        ({
            let lo: int = if l % 32 == 0 { 1 } else { (l % 32) as int };
            let n = (h % 4) as int * 32 + lo;
            let wrapped = n % c.rom_count();
            let bank = if wrapped == 0 && c.rom_count() > 1 { 1 } else { wrapped };
            let expected = rom_byte(c.rom_image(), bank * ROM_BANK_SIZE + offset);
            &&& c.poke(high_at, h).poke(low_at, l).peek((0x4000 + offset) as u16) == expected
            &&& c.poke(low_at, l).poke(high_at, h).peek((0x4000 + offset) as u16) == expected
        }),
{
    let v = l & 0x1F;
    let low: u8 = if v == 0 { 1 } else { v };
    assert(l & 0x1F == l % 32 && h & 0x03 == h % 4) by (bit_vector);
    lemma_bank_number(h & 0x03, low);
}

} // verus!
