//! SM83 register file.
//!
//! The flag register F keeps its four meaningful bits (Z, N, H, C in bits
//! 7..4) as booleans; the low nibble of F always reads as zero, so the byte
//! form is recomputed on demand by [`Registers::f`].
use vstd::prelude::*;

verus! {

/// The four condition flags held in the upper nibble of F.
#[allow(non_camel_case_types)]
#[derive(Clone, Copy, Debug, PartialEq, Eq)]
pub enum Flag {
    ZERO,
    SUBTRACT,
    HALF_CARRY,
    CARRY,
}

#[derive(Clone, Copy, Debug, PartialEq, Eq, Structural)]
pub struct Registers {
    pub a: u8,
    pub b: u8,
    pub c: u8,
    pub d: u8,
    pub e: u8,
    pub h: u8,
    pub l: u8,
    /// Program counter.
    pub pc: u16,
    /// Stack pointer.
    pub sp: u16,
    /// Z: set when the last result was zero (F bit 7).
    pub zero: bool,
    /// N: set when the last arithmetic operation was a subtraction (F bit 6).
    pub subtract: bool,
    /// H: carry out of / borrow into bit 3 (F bit 5).
    pub half_carry: bool,
    /// C: carry out of / borrow into bit 7 (F bit 4).
    pub carry: bool,
}

/// Big-endian pair of bytes as a 16-bit word.
pub open spec fn pair(hi: u8, lo: u8) -> u16 {
    (hi as int * 256 + lo as int) as u16
}

/// The byte value of the flag register F.
pub open spec fn flag_byte(z: bool, n: bool, h: bool, c: bool) -> u8 {
    ((if z { 0x80int } else { 0 }) + (if n { 0x40int } else { 0 }) + (if h { 0x20int } else { 0 })
        + (if c { 0x10int } else { 0 })) as u8
}

pub open spec fn flag_value(r: Registers, flag: Flag) -> bool {
    match flag {
        Flag::ZERO => r.zero,
        Flag::SUBTRACT => r.subtract,
        Flag::HALF_CARRY => r.half_carry,
        Flag::CARRY => r.carry,
    }
}

pub open spec fn with_flag(r: Registers, flag: Flag, value: bool) -> Registers {
    match flag {
        Flag::ZERO => Registers { zero: value, ..r },
        Flag::SUBTRACT => Registers { subtract: value, ..r },
        Flag::HALF_CARRY => Registers { half_carry: value, ..r },
        Flag::CARRY => Registers { carry: value, ..r },
    }
}

impl Registers {
    pub open spec fn af(self) -> u16 {
        pair(self.a, flag_byte(self.zero, self.subtract, self.half_carry, self.carry))
    }

    pub open spec fn bc(self) -> u16 {
        pair(self.b, self.c)
    }

    pub open spec fn de(self) -> u16 {
        pair(self.d, self.e)
    }

    pub open spec fn hl(self) -> u16 {
        pair(self.h, self.l)
    }

    pub open spec fn with_bc(self, value: u16) -> Registers {
        Registers { b: (value / 256) as u8, c: (value % 256) as u8, ..self }
    }

    pub open spec fn with_de(self, value: u16) -> Registers {
        Registers { d: (value / 256) as u8, e: (value % 256) as u8, ..self }
    }

    pub open spec fn with_hl(self, value: u16) -> Registers {
        Registers { h: (value / 256) as u8, l: (value % 256) as u8, ..self }
    }

    /// AF as written by POP AF: the low nibble of F is discarded.
    pub open spec fn with_af(self, value: u16) -> Registers {
        let f = value % 256;
        Registers {
            a: (value / 256) as u8,
            zero: f >= 0x80,
            subtract: f % 0x80 >= 0x40,
            half_carry: f % 0x40 >= 0x20,
            carry: f % 0x20 >= 0x10,
            ..self
        }
    }

    /// Register state after the DMG boot ROM completes
    /// (A=01 F=B0 B=00 C=13 D=00 E=D8 H=01 L=4D SP=FFFE PC=0100).
    pub open spec fn post_boot() -> Registers {
        Registers {
            a: 0x01,
            b: 0x00,
            c: 0x13,
            d: 0x00,
            e: 0xD8,
            h: 0x01,
            l: 0x4D,
            pc: 0x0100,
            sp: 0xFFFE,
            zero: true,
            subtract: false,
            half_carry: true,
            carry: true,
        }
    }

    /// Register state at power-on, before any boot ROM runs: everything zero.
    pub open spec fn power_on() -> Registers {
        Registers {
            a: 0,
            b: 0,
            c: 0,
            d: 0,
            e: 0,
            h: 0,
            l: 0,
            pc: 0,
            sp: 0,
            zero: false,
            subtract: false,
            half_carry: false,
            carry: false,
        }
    }

    /// Register state after the DMG boot ROM completes.
    /// The emulator starts here when no boot ROM is provided.
    pub fn new() -> (r: Registers)
        ensures
            r == Registers::post_boot(),
    {
        Registers {
            a: 0x01,
            b: 0x00,
            c: 0x13,
            d: 0x00,
            e: 0xD8,
            h: 0x01,
            l: 0x4D,
            pc: 0x0100,
            sp: 0xFFFE,
            zero: true,
            subtract: false,
            half_carry: true,
            carry: true,
        }
    }

    /// Register state when the hardware first powers on (PC = 0x0000, all zero).
    pub fn cold_start() -> (r: Registers)
        ensures
            r == Registers::power_on(),
    {
        Registers {
            a: 0,
            b: 0,
            c: 0,
            d: 0,
            e: 0,
            h: 0,
            l: 0,
            pc: 0,
            sp: 0,
            zero: false,
            subtract: false,
            half_carry: false,
            carry: false,
        }
    }

    /// The flag register F as a byte (low nibble always zero).
    pub fn f(&self) -> (f: u8)
        ensures
            f == flag_byte(self.zero, self.subtract, self.half_carry, self.carry),
    {
        let mut f: u8 = 0;
        if self.zero {
            f = f + 0x80;
        }
        if self.subtract {
            f = f + 0x40;
        }
        if self.half_carry {
            f = f + 0x20;
        }
        if self.carry {
            f = f + 0x10;
        }
        f
    }

    pub fn get_af(&self) -> (v: u16)
        ensures
            v == self.af(),
    {
        let f = self.f();
        self.a as u16 * 256 + f as u16
    }

    pub fn get_bc(&self) -> (v: u16)
        ensures
            v == self.bc(),
    {
        self.b as u16 * 256 + self.c as u16
    }

    pub fn get_de(&self) -> (v: u16)
        ensures
            v == self.de(),
    {
        self.d as u16 * 256 + self.e as u16
    }

    pub fn get_hl(&self) -> (v: u16)
        ensures
            v == self.hl(),
    {
        self.h as u16 * 256 + self.l as u16
    }

    /// Returns HL, then increments HL (wrapping).
    pub fn get_hli(&mut self) -> (v: u16)
        ensures
            v == old(self).hl(),
            *final(self) == old(self).with_hl(old(self).hl().wrapping_add(1)),
    {
        let hl = self.get_hl();
        self.set_hl(hl.wrapping_add(1));
        hl
    }

    /// Returns HL, then decrements HL (wrapping).
    pub fn get_hld(&mut self) -> (v: u16)
        ensures
            v == old(self).hl(),
            *final(self) == old(self).with_hl(old(self).hl().wrapping_sub(1)),
    {
        let hl = self.get_hl();
        self.set_hl(hl.wrapping_sub(1));
        hl
    }

    pub fn set_af(&mut self, value: u16)
        ensures
            *final(self) == old(self).with_af(value),
    {
        self.a = (value / 256) as u8;
        let f = value % 256;
        self.zero = f >= 0x80;
        self.subtract = f % 0x80 >= 0x40;
        self.half_carry = f % 0x40 >= 0x20;
        self.carry = f % 0x20 >= 0x10;
    }

    pub fn set_bc(&mut self, value: u16)
        ensures
            *final(self) == old(self).with_bc(value),
    {
        self.b = (value / 256) as u8;
        self.c = (value % 256) as u8;
    }

    pub fn set_de(&mut self, value: u16)
        ensures
            *final(self) == old(self).with_de(value),
    {
        self.d = (value / 256) as u8;
        self.e = (value % 256) as u8;
    }

    pub fn set_hl(&mut self, value: u16)
        ensures
            *final(self) == old(self).with_hl(value),
    {
        self.h = (value / 256) as u8;
        self.l = (value % 256) as u8;
    }

    pub fn get_flag(&self, flag: Flag) -> (v: bool)
        ensures
            v == flag_value(*self, flag),
    {
        match flag {
            Flag::ZERO => self.zero,
            Flag::SUBTRACT => self.subtract,
            Flag::HALF_CARRY => self.half_carry,
            Flag::CARRY => self.carry,
        }
    }

    pub fn set_flag(&mut self, flag: Flag, value: bool)
        ensures
            *final(self) == with_flag(*old(self), flag, value),
    {
        match flag {
            Flag::ZERO => self.zero = value,
            Flag::SUBTRACT => self.subtract = value,
            Flag::HALF_CARRY => self.half_carry = value,
            Flag::CARRY => self.carry = value,
        }
    }
}

/// Splitting a word into registers and reading the pair back gives the word.
pub proof fn lemma_pair_roundtrip(r: Registers, value: u16)
    ensures
        r.with_bc(value).bc() == value,
        r.with_de(value).de() == value,
        r.with_hl(value).hl() == value,
        r.with_af(value).a == value / 256,
{
}

proof fn lemma_flag_byte_bits(z: bool, n: bool, h: bool, c: bool)
    ensures
        ({
            let f = flag_byte(z, n, h, c) as int;
            &&& (f / 128 == 1) == z
            &&& ((f / 64) % 2 == 1) == n
            &&& ((f / 32) % 2 == 1) == h
            &&& ((f / 16) % 2 == 1) == c
            &&& f % 16 == 0
        }),
{
    if z {
        if n {
            if h {
                if c { assert(flag_byte(z, n, h, c) == 240); } else { assert(flag_byte(z, n, h, c) == 224); }
            } else {
                if c { assert(flag_byte(z, n, h, c) == 208); } else { assert(flag_byte(z, n, h, c) == 192); }
            }
        } else {
            if h {
                if c { assert(flag_byte(z, n, h, c) == 176); } else { assert(flag_byte(z, n, h, c) == 160); }
            } else {
                if c { assert(flag_byte(z, n, h, c) == 144); } else { assert(flag_byte(z, n, h, c) == 128); }
            }
        }
    } else {
        if n {
            if h {
                if c { assert(flag_byte(z, n, h, c) == 112); } else { assert(flag_byte(z, n, h, c) == 96); }
            } else {
                if c { assert(flag_byte(z, n, h, c) == 80); } else { assert(flag_byte(z, n, h, c) == 64); }
            }
        } else {
            if h {
                if c { assert(flag_byte(z, n, h, c) == 48); } else { assert(flag_byte(z, n, h, c) == 32); }
            } else {
                if c { assert(flag_byte(z, n, h, c) == 16); } else { assert(flag_byte(z, n, h, c) == 0); }
            }
        }
    }
}

proof fn lemma_flag_nibble(x: u8)
    by (bit_vector)
    ensures
        (if x >= 0x80u8 { 0x80u16 } else { 0u16 }) + (if x % 0x80 >= 0x40 { 0x40u16 } else { 0u16 }) + (
        if x % 0x40 >= 0x20 { 0x20u16 } else { 0u16 }) + (if x % 0x20 >= 0x10 { 0x10u16 } else { 0u16 })
            == (x - x % 16) as u16,
{
}

proof fn lemma_flag_byte_of_low(low: int)
    requires
        0 <= low < 256,
    ensures
        flag_byte(low >= 0x80, low % 0x80 >= 0x40, low % 0x40 >= 0x20, low % 0x20 >= 0x10) as int
            == low - low % 16,
{
    lemma_flag_nibble(low as u8);
}

/// The flag register F: Z is bit 7, N bit 6, H bit 5 and C bit 4, and
/// the low four bits always read 0.  So AF read back after a write of
/// `value` is `value` with its low nibble cleared, and the pair registers
/// hold their high byte in the first register (B, D, H, A).
pub proof fn lemma_flag_register_layout(r: Registers, value: u16)
    ensures
        ({
            let f = r.af() % 256;
            &&& r.af() / 256 == r.a
            &&& (f / 128 == 1) == r.zero
            &&& ((f / 64) % 2 == 1) == r.subtract
            &&& ((f / 32) % 2 == 1) == r.half_carry
            &&& ((f / 16) % 2 == 1) == r.carry
            &&& f % 16 == 0
        }),
        r.with_af(value).af() == value - value % 16,
        r.with_bc(value).b == value / 256 && r.with_bc(value).c == value % 256,
        r.with_de(value).d == value / 256 && r.with_de(value).e == value % 256,
        r.with_hl(value).h == value / 256 && r.with_hl(value).l == value % 256,
{
    let f = flag_byte(r.zero, r.subtract, r.half_carry, r.carry);
    lemma_flag_byte_bits(r.zero, r.subtract, r.half_carry, r.carry);
    assert(r.af() as int == r.a * 256 + f);
    let low = value % 256;
    lemma_flag_byte_of_low(low as int);
    let t = r.with_af(value);
    assert(t.af() as int == (value / 256) * 256 + (low - low % 16));
}

} // verus!
