//! Cartridge mappers for the DMG Game Boy.
//!
//! A cartridge holds ROM (and optionally RAM) plus a Memory Bank Controller
//! (MBC).  The CPU sees a 16 KiB window of switchable ROM (0x4000–0x7FFF)
//! and an 8 KiB window of RAM (0xA000–0xBFFF); the MBC chooses which bank
//! of ROM or RAM each window shows.
//!
//! | Mapper   | Type bytes  |
//! |----------|-------------|
//! | ROM-only | 0x00        |
//! | MBC1     | 0x01–0x03   |
//! | MBC3     | 0x0F–0x13   |
//! | MBC5     | 0x19–0x1E   |
//!
//! The header layout and size codes follow Pan Docs ("The Cartridge
//! Header").
use vstd::prelude::*;
use crate::memory::Memory;
use crate::text::{
    decimal_string, decimal_text, hex_byte_string, hex_byte_text, lossy_utf8, trimmed, trim_text,
    utf8_lossy,
};

pub mod mbc1;
pub mod mbc3;
pub mod mbc5;
pub mod rom_only;

use crate::cartridge::mbc1::Mbc1;
use crate::cartridge::mbc3::Mbc3;
use crate::cartridge::mbc5::Mbc5;
use crate::cartridge::rom_only::RomOnly;

verus! {

/// Errors produced while parsing or constructing a cartridge.
#[derive(Debug, Clone, Copy, PartialEq, Eq, Structural)]
pub enum CartridgeError {
    RomTooSmall(usize),
    UnsupportedCartridgeType(u8),
    UnsupportedRomSizeCode(u8),
    UnsupportedRamSizeCode(u8),
}

/// What an error says, as its `Display` text.
pub open spec fn cartridge_error_text(e: CartridgeError) -> Seq<char> {
    match e {
        CartridgeError::RomTooSmall(len) => "ROM image too small ("@ + decimal_text(len as nat)
            + " bytes)"@,
        CartridgeError::UnsupportedCartridgeType(t) => "cartridge type 0x"@ + hex_byte_text(t)
            + " is not supported"@,
        CartridgeError::UnsupportedRomSizeCode(c) => "ROM size code 0x"@ + hex_byte_text(c)
            + " is not supported"@,
        CartridgeError::UnsupportedRamSizeCode(c) => "RAM size code 0x"@ + hex_byte_text(c)
            + " is not supported"@,
    }
}

impl CartridgeError {
    /// The error as a sentence for the user.
    pub fn to_string(&self) -> (text: String)
        ensures
            text@ == cartridge_error_text(*self),
    {
        let (head, middle, tail) = match *self {
            CartridgeError::RomTooSmall(len) => (
                "ROM image too small (",
                decimal_string(len as u64),
                " bytes)",
            ),
            CartridgeError::UnsupportedCartridgeType(t) => (
                "cartridge type 0x",
                hex_byte_string(t),
                " is not supported",
            ),
            CartridgeError::UnsupportedRomSizeCode(c) => (
                "ROM size code 0x",
                hex_byte_string(c),
                " is not supported",
            ),
            CartridgeError::UnsupportedRamSizeCode(c) => (
                "RAM size code 0x",
                hex_byte_string(c),
                " is not supported",
            ),
        };
        let mut text = String::from_str(head);
        text.append(middle.as_str());
        text.append(tail);
        text
    }
}

/// Mapper families recognised by the loader.
#[derive(Debug, Clone, Copy, PartialEq, Eq, Structural)]
pub enum MapperKind {
    RomOnly,
    Mbc1,
    Mbc3,
    Mbc5,
}

/// Metadata decoded from the cartridge header.
#[derive(Debug, Clone)]
pub struct CartridgeInfo {
    pub title: String,
    pub mapper: MapperKind,
    pub rom_size: usize,
    pub ram_size: usize,
    pub rom_banks: usize,
    pub ram_banks: usize,
    /// Battery-backed RAM (its contents are worth saving).
    pub battery: bool,
}

/// Largest cartridge RAM: 16 banks of 8 KiB.
pub const MAX_RAM_SIZE: usize = 0x20000;

/// Size of one ROM bank.
pub const ROM_BANK_SIZE: usize = 0x4000;

// ---------------------------------------------------------------------------
// Header
// ---------------------------------------------------------------------------

/// The mapper a cartridge type byte (0x0147) names.
pub open spec fn mapper_of_type(byte: u8) -> Option<MapperKind> {
    if byte == 0x00 {
        Some(MapperKind::RomOnly)
    } else if 0x01 <= byte <= 0x03 {
        Some(MapperKind::Mbc1)
    } else if 0x0F <= byte <= 0x13 {
        Some(MapperKind::Mbc3)
    } else if 0x19 <= byte <= 0x1E {
        Some(MapperKind::Mbc5)
    } else {
        None
    }
}

/// Cartridge types with a battery: MBC1+RAM+BATTERY, MBC3+TIMER+BATTERY,
/// MBC3+TIMER+RAM+BATTERY, MBC3+RAM+BATTERY, MBC5+RAM+BATTERY and
/// MBC5+RUMBLE+RAM+BATTERY.
pub open spec fn has_battery(byte: u8) -> bool {
    byte == 0x03 || byte == 0x0F || byte == 0x10 || byte == 0x13 || byte == 0x1B || byte == 0x1E
}

/// Number of 16 KiB ROM banks for ROM size code (0x0148).
pub open spec fn rom_banks_of(code: u8) -> Option<usize> {
    if code <= 0x08 {
        Some((2 * pow2_nat(code as nat)) as usize)
    } else if code == 0x52 {
        Some(72)
    } else if code == 0x53 {
        Some(80)
    } else if code == 0x54 {
        Some(96)
    } else {
        None
    }
}

pub open spec fn pow2_nat(n: nat) -> nat
    decreases n,
{
    if n == 0 {
        1
    } else {
        2 * pow2_nat((n - 1) as nat)
    }
}

/// (bank count, bytes per bank) for RAM size code (0x0149).
pub open spec fn ram_config_of(code: u8) -> Option<(usize, usize)> {
    if code == 0x00 {
        Some((0, 0x2000))
    } else if code == 0x01 {
        Some((1, 0x0800))
    } else if code == 0x02 {
        Some((1, 0x2000))
    } else if code == 0x03 {
        Some((4, 0x2000))
    } else if code == 0x04 {
        Some((16, 0x2000))
    } else if code == 0x05 {
        Some((8, 0x2000))
    } else {
        None
    }
}

/// The title bytes: 0x0134–0x0142 up to the first NUL.
pub open spec fn title_bytes(rom: Seq<u8>) -> Seq<u8> {
    before_nul(rom.subrange(0x134, 0x143))
}

pub open spec fn before_nul(bytes: Seq<u8>) -> Seq<u8>
    decreases bytes.len(),
{
    if bytes.len() == 0 {
        bytes
    } else if bytes[0] == 0 {
        Seq::empty()
    } else {
        seq![bytes[0]] + before_nul(bytes.drop_first())
    }
}

/// The title shown for a ROM: the title bytes decoded (lossy UTF-8) and
/// trimmed of white space.
pub open spec fn header_title(rom: Seq<u8>) -> Seq<char> {
    trimmed(lossy_utf8(title_bytes(rom)))
}

/// What `CartridgeKind::from_bytes` concludes from a ROM image: the error,
/// in the order the checks are made, or the decoded numbers.
pub open spec fn header_check(rom: Seq<u8>) -> Result<(), CartridgeError> {
    if rom.len() < 0x150 {
        Err(CartridgeError::RomTooSmall(rom.len() as usize))
    } else if mapper_of_type(rom[0x147]) is None {
        Err(CartridgeError::UnsupportedCartridgeType(rom[0x147]))
    } else if rom_banks_of(rom[0x148]) is None {
        Err(CartridgeError::UnsupportedRomSizeCode(rom[0x148]))
    } else if ram_config_of(rom[0x149]) is None {
        Err(CartridgeError::UnsupportedRamSizeCode(rom[0x149]))
    } else if rom.len() < rom_banks_of(rom[0x148]).unwrap() * ROM_BANK_SIZE {
        Err(CartridgeError::RomTooSmall(rom.len() as usize))
    } else {
        Ok(())
    }
}

/// Whether `info` is what the header of `rom` (which passes `header_check`)
/// describes.
pub open spec fn info_matches(info: CartridgeInfo, rom: Seq<u8>) -> bool {
    let banks = rom_banks_of(rom[0x148]).unwrap();
    let (ram_banks, bank_size) = ram_config_of(rom[0x149]).unwrap();
    &&& info.title@ == header_title(rom)
    &&& info.mapper == mapper_of_type(rom[0x147]).unwrap()
    &&& info.rom_banks == banks
    &&& info.rom_size == banks * ROM_BANK_SIZE
    &&& info.ram_banks == ram_banks
    &&& info.ram_size == ram_banks * bank_size
    &&& info.battery == has_battery(rom[0x147])
}

impl MapperKind {
    fn from_type_byte(byte: u8) -> (r: Result<MapperKind, CartridgeError>)
        ensures
            r == (match mapper_of_type(byte) {
                Some(m) => Ok(m),
                None => Err(CartridgeError::UnsupportedCartridgeType(byte)),
            }),
    {
        match byte {
            0x00 => Ok(MapperKind::RomOnly),
            0x01..=0x03 => Ok(MapperKind::Mbc1),
            0x0F..=0x13 => Ok(MapperKind::Mbc3),
            0x19..=0x1E => Ok(MapperKind::Mbc5),
            other => Err(CartridgeError::UnsupportedCartridgeType(other)),
        }
    }
}

/// Pan Docs § "ROM Size".
fn rom_bank_count(code: u8) -> (r: Result<usize, CartridgeError>)
    ensures
        r == (match rom_banks_of(code) {
            Some(n) => Ok(n),
            None => Err(CartridgeError::UnsupportedRomSizeCode(code)),
        }),
{
    proof {
        reveal_with_fuel(pow2_nat, 9);
    }
    let count: usize = match code {
        0x00 => 2,
        0x01 => 4,
        0x02 => 8,
        0x03 => 16,
        0x04 => 32,
        0x05 => 64,
        0x06 => 128,
        0x07 => 256,
        0x08 => 512,
        0x52 => 72,
        0x53 => 80,
        0x54 => 96,
        other => {
            return Err(CartridgeError::UnsupportedRomSizeCode(other));
        },
    };
    Ok(count)
}

/// Pan Docs § "RAM Size": `(bank count, bytes per bank)`.
fn ram_bank_config(code: u8) -> (r: Result<(usize, usize), CartridgeError>)
    ensures
        r == (match ram_config_of(code) {
            Some(c) => Ok(c),
            None => Err(CartridgeError::UnsupportedRamSizeCode(code)),
        }),
        r matches Ok((n, size)) ==> n * size <= MAX_RAM_SIZE,
{
    match code {
        0x00 => Ok((0, 0x2000)),  // no RAM
        0x01 => Ok((1, 0x0800)),  // 2 KiB
        0x02 => Ok((1, 0x2000)),  // 8 KiB
        0x03 => Ok((4, 0x2000)),  // 32 KiB
        0x04 => Ok((16, 0x2000)),  // 128 KiB
        0x05 => Ok((8, 0x2000)),  // 64 KiB
        other => Err(CartridgeError::UnsupportedRamSizeCode(other)),
    }
}

/// The header fields the loader reads.
struct Header {
    title: String,
    cartridge_type: u8,
    rom_size_code: u8,
    ram_size_code: u8,
}

impl Header {
    fn parse(rom: &[u8]) -> (r: Result<Header, CartridgeError>)
        ensures
            rom@.len() < 0x150 ==> r == Err::<Header, CartridgeError>(CartridgeError::RomTooSmall(rom@.len() as usize)),
            rom@.len() >= 0x150 ==> (r matches Ok(h) && h.title@ == header_title(rom@)
                && h.cartridge_type == rom@[0x147] && h.rom_size_code == rom@[0x148]
                && h.ram_size_code == rom@[0x149]),
    {
        if rom.len() < 0x150 {
            return Err(CartridgeError::RomTooSmall(rom.len()));
        }
        // The title runs from 0x0134 to 0x0142, or to the first NUL.
        let mut bytes: Vec<u8> = Vec::new();
        let mut i: usize = 0x134;
        let ghost field = rom@.subrange(0x134, 0x143);
        proof {
            assert(field.subrange(0, 15) =~= field);
            assert(bytes@ + before_nul(field) =~= before_nul(field));
            assert(rom@.subrange(0x134, 0x134) =~= bytes@);
        }
        while i < 0x143 && rom[i] != 0
            invariant
                0x134 <= i <= 0x143,
                rom@.len() >= 0x150,
                field == rom@.subrange(0x134, 0x143),
                forall|k: int| 0x134 <= k < i ==> rom@[k] != 0,
                bytes@ == rom@.subrange(0x134, i as int),
                before_nul(field) == bytes@ + before_nul(field.subrange(i - 0x134, 15)),
            decreases 0x143 - i,
        {
            proof {
                let rest = field.subrange(i - 0x134, 15);
                assert(rest.drop_first() =~= field.subrange(i - 0x134 + 1, 15));
                assert(bytes@.push(rom@[i as int]) =~= bytes@ + seq![rest[0]]);
            }
            bytes.push(rom[i]);
            i = i + 1;
        }
        proof {
            let rest = field.subrange(i - 0x134, 15);
            if i < 0x143 {
                assert(rest[0] == 0);
            } else {
                assert(rest.len() == 0);
            }
            assert(bytes@ =~= title_bytes(rom@));
        }
        let decoded = utf8_lossy(bytes.as_slice());
        let title = trim_text(decoded.as_str());
        Ok(Header {
            title,
            cartridge_type: rom[0x147],
            rom_size_code: rom[0x148],
            ram_size_code: rom[0x149],
        })
    }

    fn to_info(self) -> (r: Result<CartridgeInfo, CartridgeError>)
        ensures
            mapper_of_type(self.cartridge_type) is None ==> r == Err::<CartridgeInfo, CartridgeError>(CartridgeError::UnsupportedCartridgeType(self.cartridge_type)),
            mapper_of_type(self.cartridge_type) is Some && rom_banks_of(self.rom_size_code) is None
                ==> r == Err::<CartridgeInfo, CartridgeError>(CartridgeError::UnsupportedRomSizeCode(self.rom_size_code)),
            mapper_of_type(self.cartridge_type) is Some && rom_banks_of(self.rom_size_code) is Some
                && ram_config_of(self.ram_size_code) is None
                ==> r == Err::<CartridgeInfo, CartridgeError>(CartridgeError::UnsupportedRamSizeCode(self.ram_size_code)),
            mapper_of_type(self.cartridge_type) is Some && rom_banks_of(self.rom_size_code) is Some
                && ram_config_of(self.ram_size_code) is Some ==> r is Ok,
            r matches Ok(info) ==> {
                let banks = rom_banks_of(self.rom_size_code).unwrap();
                let (ram_banks, bank_size) = ram_config_of(self.ram_size_code).unwrap();
                &&& info.title@ == self.title@
                &&& info.mapper == mapper_of_type(self.cartridge_type).unwrap()
                &&& info.rom_banks == banks
                &&& info.rom_size == banks * ROM_BANK_SIZE
                &&& info.ram_banks == ram_banks
                &&& info.ram_size == ram_banks * bank_size
                &&& info.ram_size <= MAX_RAM_SIZE
                &&& info.battery == has_battery(self.cartridge_type)
            },
    {
        let mapper = match MapperKind::from_type_byte(self.cartridge_type) {
            Ok(m) => m,
            Err(e) => {
                return Err(e);
            },
        };
        let rom_banks = match rom_bank_count(self.rom_size_code) {
            Ok(n) => n,
            Err(e) => {
                return Err(e);
            },
        };
        let (ram_banks, ram_bank_size) = match ram_bank_config(self.ram_size_code) {
            Ok(c) => c,
            Err(e) => {
                return Err(e);
            },
        };
        proof {
            reveal_with_fuel(pow2_nat, 9);
        }
        let t = self.cartridge_type;
        let battery = t == 0x03 || t == 0x0F || t == 0x10 || t == 0x13 || t == 0x1B || t == 0x1E;
        Ok(CartridgeInfo {
            title: self.title,
            mapper,
            rom_size: rom_banks * ROM_BANK_SIZE,
            ram_size: ram_banks * ram_bank_size,
            rom_banks,
            ram_banks,
            battery,
        })
    }
}

// ---------------------------------------------------------------------------
// ROM and RAM storage
// ---------------------------------------------------------------------------

/// A ROM byte, or open bus (0xFF) past the end of the image.
pub open spec fn rom_byte(rom: Seq<u8>, index: int) -> u8 {
    if 0 <= index < rom.len() {
        rom[index]
    } else {
        0xFF
    }
}

/// Read ROM at `index`, 0xFF past the end of the image.
pub(crate) fn read_rom_at(rom: &Vec<u8>, index: usize) -> (b: u8)
    ensures
        b == rom_byte(rom@, index as int),
{
    if index < rom.len() {
        rom[index]
    } else {
        0xFF
    }
}

/// Cartridge RAM: `size` bytes (0 when the cartridge has none) in a buffer
/// of the largest size.
pub struct CartRam {
    bytes: Box<[u8; 0x20000]>,
    size: usize,
}

/// `bytes` with its first `n` bytes taken from `data`.
pub open spec fn bytes_loaded(bytes: [u8; 0x20000], data: Seq<u8>, n: nat) -> [u8; 0x20000]
    decreases n,
{
    if n == 0 {
        bytes
    } else {
        vstd::array::spec_array_update(bytes_loaded(bytes, data, (n - 1) as nat), n - 1, data[n - 1])
    }
}

impl CartRam {
    #[verifier::type_invariant]
    spec fn inv(self) -> bool {
        self.size <= MAX_RAM_SIZE
    }

    pub closed spec fn len(self) -> nat {
        self.size as nat
    }

    /// The RAM contents.
    pub closed spec fn contents(self) -> Seq<u8> {
        self.bytes@.subrange(0, if self.size <= MAX_RAM_SIZE { self.size as int } else { MAX_RAM_SIZE as int })
    }

    /// The byte at `index`, or 0xFF outside the RAM.
    pub open spec fn byte_at(self, index: int) -> u8 {
        if 0 <= index < self.len() {
            self.contents()[index]
        } else {
            0xFF
        }
    }

    /// The RAM after writing `value` at `index` (ignored outside the RAM).
    pub closed spec fn written(self, index: int, value: u8) -> CartRam {
        if 0 <= index < self.size {
            CartRam { bytes: Box::new(vstd::array::spec_array_update(*self.bytes, index, value)), ..self }
        } else {
            self
        }
    }

    /// The RAM with its first bytes taken from `data` (as many as both hold).
    pub closed spec fn loaded(self, data: Seq<u8>) -> CartRam {
        let n = if data.len() < self.size { data.len() } else { self.size as nat };
        CartRam { bytes: Box::new(bytes_loaded(*self.bytes, data, n)), ..self }
    }

    /// `size` zero bytes.
    pub fn new(size: usize) -> (r: CartRam)
        requires
            size <= MAX_RAM_SIZE,
        ensures
            r.len() == size,
            r.contents() == Seq::new(size as nat, |i: int| 0u8),
    {
        let r = CartRam { bytes: Box::new([0u8; 0x20000]), size };
        assert(r.contents() =~= Seq::new(size as nat, |i: int| 0u8));
        r
    }

    pub fn size(&self) -> (n: usize)
        ensures
            n == self.len(),
            n <= MAX_RAM_SIZE,
    {
        proof {
            use_type_invariant(self);
        }
        self.size
    }

    pub fn read(&self, index: usize) -> (b: u8)
        ensures
            b == self.byte_at(index as int),
    {
        proof {
            use_type_invariant(self);
        }
        if index < self.size {
            self.bytes[index]
        } else {
            0xFF
        }
    }

    pub fn write(&mut self, index: usize, value: u8)
        ensures
            *final(self) == old(self).written(index as int, value),
    {
        proof {
            use_type_invariant(&*self);
        }
        if index < self.size {
            self.bytes[index] = value;
        }
    }

    /// The RAM contents as a slice.
    pub fn as_slice(&self) -> (s: &[u8])
        ensures
            s@ == self.contents(),
    {
        proof {
            use_type_invariant(self);
        }
        let all = vstd::array::array_as_slice(&*self.bytes);
        vstd::slice::slice_subrange(all, 0, self.size)
    }

    /// Copy `data` over the start of the RAM, as much as both hold.
    pub fn load(&mut self, data: &[u8])
        ensures
            *final(self) == old(self).loaded(data@),
    {
        proof {
            use_type_invariant(&*self);
        }
        let n = if data.len() < self.size {
            data.len()
        } else {
            self.size
        };
        let ghost start = *self.bytes;
        let mut i: usize = 0;
        while i < n
            invariant
                i <= n <= MAX_RAM_SIZE,
                n <= data@.len(),
                *self.bytes == bytes_loaded(start, data@, i as nat),
                self.size == old(self).size,
                self.size <= MAX_RAM_SIZE,
                start == *old(self).bytes,
            decreases n - i,
        {
            self.bytes[i] = data[i];
            i = i + 1;
        }
    }
}

proof fn lemma_bytes_loaded(bytes: [u8; 0x20000], data: Seq<u8>, n: nat)
    requires
        n <= data.len(),
        n <= MAX_RAM_SIZE,
    ensures
        forall|i: int| 0 <= i < n ==> bytes_loaded(bytes, data, n)@[i] == data[i],
        forall|i: int| n <= i < MAX_RAM_SIZE ==> bytes_loaded(bytes, data, n)@[i] == bytes@[i],
    decreases n,
{
    broadcast use vstd::array::group_array_axioms;

    if n > 0 {
        lemma_bytes_loaded(bytes, data, (n - 1) as nat);
    }
}

/// Restoring RAM from data of exactly its size makes the data its contents.
pub proof fn lemma_loaded_contents(r: CartRam, data: Seq<u8>)
    requires
        data.len() == r.contents().len(),
    ensures
        r.loaded(data).contents() == data,
        r.loaded(data).len() == r.len(),
{
    broadcast use vstd::array::group_array_axioms;

    let n = if data.len() < r.size { data.len() } else { r.size as nat };
    assert(n == data.len());
    lemma_bytes_loaded(*r.bytes, data, n);
    assert(r.loaded(data).contents() =~= data);
}

/// A RAM write is read back, within the RAM.
pub proof fn lemma_ram_read_back(r: CartRam, index: int, value: u8)
    requires
        r.len() <= MAX_RAM_SIZE,
        0 <= index < r.len(),
    ensures
        r.written(index, value).byte_at(index) == value,
        forall|j: int| j != index ==> r.written(index, value).byte_at(j) == r.byte_at(j),
{
}

// ---------------------------------------------------------------------------
// Cartridge trait and dispatch
// ---------------------------------------------------------------------------

/// Implemented by all mapper backends: [`Memory`] plus header metadata and
/// battery-backed RAM.
pub trait Cartridge: Memory {
    spec fn header_info(&self) -> CartridgeInfo;

    /// The RAM worth saving: `None` without a battery or without RAM.
    spec fn battery_ram(&self) -> Option<Seq<u8>>;

    /// The cartridge after its RAM is restored from `data`.
    spec fn save_loaded(self, data: Seq<u8>) -> Self;

    fn info(&self) -> (info: &CartridgeInfo)
        ensures
            *info == self.header_info(),
    ;

    /// Battery-backed RAM contents for a `.sav` file, or `None` if the
    /// cartridge has no battery.
    fn save_data(&self) -> (data: Option<&[u8]>)
        ensures
            match data {
                Some(d) => self.battery_ram() == Some(d@),
                None => self.battery_ram() is None,
            },
    ;

    /// Restore RAM from a `.sav` file (as many bytes as both hold).
    fn load_save_data(&mut self, data: &[u8])
        ensures
            *final(self) == old(self).save_loaded(data@),
    ;
}

/// A loaded cartridge: one concrete mapper.  Use
/// [`CartridgeKind::from_bytes`] to build one from a ROM image.
pub enum CartridgeKind {
    RomOnly(RomOnly),
    Mbc1(Mbc1),
    Mbc3(Mbc3),
    Mbc5(Mbc5),
}

impl CartridgeKind {
    /// The ROM image the cartridge was built from.
    pub open spec fn rom_image(self) -> Seq<u8> {
        match self {
            CartridgeKind::RomOnly(c) => c.rom_image(),
            CartridgeKind::Mbc1(c) => c.rom_image(),
            CartridgeKind::Mbc3(c) => c.rom_image(),
            CartridgeKind::Mbc5(c) => c.rom_image(),
        }
    }

    /// Banking registers at their power-on values and RAM cleared.
    pub open spec fn is_fresh(self) -> bool {
        match self {
            CartridgeKind::RomOnly(c) => true,
            CartridgeKind::Mbc1(c) => c.is_fresh(),
            CartridgeKind::Mbc3(c) => c.is_fresh(),
            CartridgeKind::Mbc5(c) => c.is_fresh(),
        }
    }

    pub open spec fn mapper(self) -> MapperKind {
        match self {
            CartridgeKind::RomOnly(_) => MapperKind::RomOnly,
            CartridgeKind::Mbc1(_) => MapperKind::Mbc1,
            CartridgeKind::Mbc3(_) => MapperKind::Mbc3,
            CartridgeKind::Mbc5(_) => MapperKind::Mbc5,
        }
    }

    /// Decode a ROM image into the mapper its cartridge type byte (0x0147)
    /// names.  Fails exactly as `header_check` says; on success the
    /// cartridge holds the image, the header's metadata and fresh banking
    /// state.
    pub fn from_bytes(data: Vec<u8>) -> (r: Result<CartridgeKind, CartridgeError>)
        ensures
            match header_check(data@) {
                Err(e) => r == Err::<CartridgeKind, CartridgeError>(e),
                Ok(_) => r matches Ok(c) && info_matches(c.header_info(), data@)
                    && c.rom_image() == data@ && c.is_fresh() && c.mapper() == c.header_info().mapper,
            },
    {
        let header = match Header::parse(data.as_slice()) {
            Ok(h) => h,
            Err(e) => {
                return Err(e);
            },
        };
        let info = match header.to_info() {
            Ok(i) => i,
            Err(e) => {
                return Err(e);
            },
        };
        if data.len() < info.rom_size {
            return Err(CartridgeError::RomTooSmall(data.len()));
        }
        let ghost image = data@;
        match info.mapper {
            MapperKind::RomOnly => Ok(CartridgeKind::RomOnly(RomOnly::new(data, info))),
            MapperKind::Mbc1 => Ok(CartridgeKind::Mbc1(Mbc1::new(data, info))),
            MapperKind::Mbc3 => Ok(CartridgeKind::Mbc3(Mbc3::new(data, info))),
            MapperKind::Mbc5 => Ok(CartridgeKind::Mbc5(Mbc5::new(data, info))),
        }
    }
}

impl CartridgeKind {
    /// Read `address` (cartridge reads have no side effects).
    pub fn peek_byte(&self, address: u16) -> (value: u8)
        ensures
            value == self.peek(address),
    {
        match self {
            CartridgeKind::RomOnly(c) => c.peek_byte(address),
            CartridgeKind::Mbc1(c) => c.peek_byte(address),
            CartridgeKind::Mbc3(c) => c.peek_byte(address),
            CartridgeKind::Mbc5(c) => c.peek_byte(address),
        }
    }
}

impl Memory for CartridgeKind {
    open spec fn inv(&self) -> bool {
        true
    }

    open spec fn peek(&self, address: u16) -> u8 {
        match self {
            CartridgeKind::RomOnly(c) => c.peek(address),
            CartridgeKind::Mbc1(c) => c.peek(address),
            CartridgeKind::Mbc3(c) => c.peek(address),
            CartridgeKind::Mbc5(c) => c.peek(address),
        }
    }

    open spec fn read_effect(self, address: u16) -> Self {
        self
    }

    open spec fn poke(self, address: u16, value: u8) -> Self {
        match self {
            CartridgeKind::RomOnly(c) => CartridgeKind::RomOnly(c.poke(address, value)),
            CartridgeKind::Mbc1(c) => CartridgeKind::Mbc1(c.poke(address, value)),
            CartridgeKind::Mbc3(c) => CartridgeKind::Mbc3(c.poke(address, value)),
            CartridgeKind::Mbc5(c) => CartridgeKind::Mbc5(c.poke(address, value)),
        }
    }

    fn read_byte(&mut self, address: u16) -> (value: u8) {
        match self {
            CartridgeKind::RomOnly(c) => c.read_byte(address),
            CartridgeKind::Mbc1(c) => c.read_byte(address),
            CartridgeKind::Mbc3(c) => c.read_byte(address),
            CartridgeKind::Mbc5(c) => c.read_byte(address),
        }
    }

    fn write_byte(&mut self, address: u16, value: u8) {
        match self {
            CartridgeKind::RomOnly(c) => c.write_byte(address, value),
            CartridgeKind::Mbc1(c) => c.write_byte(address, value),
            CartridgeKind::Mbc3(c) => c.write_byte(address, value),
            CartridgeKind::Mbc5(c) => c.write_byte(address, value),
        }
    }
}

impl Cartridge for CartridgeKind {
    open spec fn header_info(&self) -> CartridgeInfo {
        match self {
            CartridgeKind::RomOnly(c) => c.header_info(),
            CartridgeKind::Mbc1(c) => c.header_info(),
            CartridgeKind::Mbc3(c) => c.header_info(),
            CartridgeKind::Mbc5(c) => c.header_info(),
        }
    }

    open spec fn battery_ram(&self) -> Option<Seq<u8>> {
        match self {
            CartridgeKind::RomOnly(c) => c.battery_ram(),
            CartridgeKind::Mbc1(c) => c.battery_ram(),
            CartridgeKind::Mbc3(c) => c.battery_ram(),
            CartridgeKind::Mbc5(c) => c.battery_ram(),
        }
    }

    open spec fn save_loaded(self, data: Seq<u8>) -> Self {
        match self {
            CartridgeKind::RomOnly(c) => CartridgeKind::RomOnly(c.save_loaded(data)),
            CartridgeKind::Mbc1(c) => CartridgeKind::Mbc1(c.save_loaded(data)),
            CartridgeKind::Mbc3(c) => CartridgeKind::Mbc3(c.save_loaded(data)),
            CartridgeKind::Mbc5(c) => CartridgeKind::Mbc5(c.save_loaded(data)),
        }
    }

    fn info(&self) -> (info: &CartridgeInfo) {
        match self {
            CartridgeKind::RomOnly(c) => c.info(),
            CartridgeKind::Mbc1(c) => c.info(),
            CartridgeKind::Mbc3(c) => c.info(),
            CartridgeKind::Mbc5(c) => c.info(),
        }
    }

    fn save_data(&self) -> (data: Option<&[u8]>) {
        match self {
            CartridgeKind::RomOnly(c) => c.save_data(),
            CartridgeKind::Mbc1(c) => c.save_data(),
            CartridgeKind::Mbc3(c) => c.save_data(),
            CartridgeKind::Mbc5(c) => c.save_data(),
        }
    }

    fn load_save_data(&mut self, data: &[u8]) {
        match self {
            CartridgeKind::RomOnly(c) => c.load_save_data(data),
            CartridgeKind::Mbc1(c) => c.load_save_data(data),
            CartridgeKind::Mbc3(c) => c.load_save_data(data),
            CartridgeKind::Mbc5(c) => c.load_save_data(data),
        }
    }
}

/// A save file of the battery RAM's size, once restored, is exactly what
/// the cartridge then saves; without battery RAM there is nothing to save.
pub proof fn lemma_save_round_trip(c: CartridgeKind, data: Seq<u8>)
    requires
        c.battery_ram() matches Some(ram) && ram.len() == data.len(),
    ensures
        c.save_loaded(data).battery_ram() == Some(data),
{
    match c {
        CartridgeKind::RomOnly(r) => rom_only::lemma_nothing_to_save(r),
        CartridgeKind::Mbc1(m) => mbc1::lemma_save_round_trip(m, data),
        CartridgeKind::Mbc3(m) => mbc3::lemma_save_round_trip(m, data),
        CartridgeKind::Mbc5(m) => mbc5::lemma_save_round_trip(m, data),
    }
}

} // verus!
