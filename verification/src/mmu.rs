//! The memory bus: it owns the devices, work RAM, high RAM and the
//! interrupt registers, routes every CPU access to the device behind the
//! address, and clocks the devices one machine cycle at a time.
//!
//! | Range         | Device                                        |
//! |---------------|-----------------------------------------------|
//! | 0x0000–0x7FFF | cartridge ROM (boot ROM over 0x0000–0x00FF)   |
//! | 0x8000–0x9FFF | VRAM (PPU)                                    |
//! | 0xA000–0xBFFF | cartridge RAM                                 |
//! | 0xC000–0xDFFF | work RAM (8 KiB, two fixed 4 KiB banks)       |
//! | 0xE000–0xFDFF | echo of work RAM                              |
//! | 0xFE00–0xFE9F | OAM (PPU)                                     |
//! | 0xFEA0–0xFEFF | unused (reads 0)                              |
//! | 0xFF00–0xFF7F | I/O registers                                 |
//! | 0xFF80–0xFFFE | high RAM                                      |
//! | 0xFFFF        | IE                                            |
//!
//! Writing 0xFF46 starts an OAM DMA transfer: after a one-cycle startup
//! delay, 160 bytes are copied from `source × 0x100` into OAM, one per
//! machine cycle.  The CPU bus lockout during the transfer is not modelled.
use vstd::prelude::*;
use crate::apu::APU;
use crate::cartridge::{Cartridge, CartridgeKind};
use crate::input::{Button, Joypad};
use crate::memory::{Memory, MemoryBus};
use crate::ppu::PPU;
use crate::serial::Serial;
use crate::timer::Timer;

verus! {

broadcast use vstd::array::group_array_axioms;

/// IF bits raised by the bus itself.
pub const IF_SERIAL: u8 = 0x08;

pub const IF_JOYPAD: u8 = 0x10;

/// Machine cycles of an OAM DMA transfer: one startup cycle, then 160 bytes.
pub const OAM_DMA_CYCLES: u8 = 161;

#[derive(Debug, Clone, Copy, PartialEq, Eq, Structural)]
pub enum MemoryRegion {
    Cartridge,
    Ppu,
    Wram,
    Hram,
    Io,
    Unused,
}

/// The device behind `address`.
pub open spec fn region_of(address: u16) -> MemoryRegion {
    if address <= 0x7FFF {
        MemoryRegion::Cartridge
    } else if address <= 0x9FFF {
        MemoryRegion::Ppu
    } else if address <= 0xBFFF {
        MemoryRegion::Cartridge
    } else if address <= 0xFDFF {
        MemoryRegion::Wram
    } else if address <= 0xFE9F {
        MemoryRegion::Ppu
    } else if address <= 0xFEFF {
        MemoryRegion::Unused
    } else if address <= 0xFF7F {
        MemoryRegion::Io
    } else if address <= 0xFFFE {
        MemoryRegion::Hram
    } else {
        MemoryRegion::Io
    }
}

pub fn get_memory_region(address: u16) -> (r: MemoryRegion)
    ensures
        r == region_of(address),
{
    match address {
        0x0000..=0x7FFF => MemoryRegion::Cartridge,
        0x8000..=0x9FFF => MemoryRegion::Ppu,
        0xA000..=0xBFFF => MemoryRegion::Cartridge,
        0xC000..=0xDFFF => MemoryRegion::Wram,
        0xE000..=0xFDFF => MemoryRegion::Wram,
        0xFE00..=0xFE9F => MemoryRegion::Ppu,
        0xFEA0..=0xFEFF => MemoryRegion::Unused,
        0xFF00..=0xFF7F => MemoryRegion::Io,
        0xFF80..=0xFFFE => MemoryRegion::Hram,
        0xFFFF => MemoryRegion::Io,
    }
}

pub struct MMU {
    cartridge: CartridgeKind,
    apu: APU,
    ppu: PPU,
    joypad: Joypad,
    serial: Serial,
    timer: Timer,
    /// IF (0xFF0F): bit 4 joypad, 3 serial, 2 timer, 1 LCD STAT, 0 VBlank.
    interrupt_flag: u8,
    /// IE (0xFFFF).
    interrupt_enable: u8,
    /// High RAM (0xFF80–0xFFFE).
    hram: [u8; 0x7F],
    /// Work RAM: 8 KiB, two fixed 4 KiB banks (the DMG has no banking).
    wram: [u8; 0x2000],
    /// Boot ROM image, shadowing the cartridge from 0x0000 while mapped.
    boot_rom: Option<Vec<u8>>,
    /// True until the program writes 0xFF50.
    boot_rom_mapped: bool,
    /// Machine cycles left in the OAM DMA transfer: 161 = startup delay,
    /// 160..=1 = copying byte 160 − remaining, 0 = idle.
    oam_dma_remaining: u8,
    /// Source address latched from the 0xFF46 write.
    oam_dma_source: u16,
}

impl MMU {
    /// The devices' own invariants (the PPU on its dot grid, the APU's
    /// register fields in range) and a DMA count within a transfer.
    pub closed spec fn wf(self) -> bool {
        &&& self.ppu.wf()
        &&& self.apu.wf()
        &&& self.joypad.wf()
        &&& self.oam_dma_remaining <= OAM_DMA_CYCLES
    }

    // -----------------------------------------------------------------------
    // Views
    // -----------------------------------------------------------------------

    pub closed spec fn cart(self) -> CartridgeKind {
        self.cartridge
    }

    pub closed spec fn video(self) -> PPU {
        self.ppu
    }

    pub closed spec fn audio(self) -> APU {
        self.apu
    }

    pub closed spec fn pad(self) -> Joypad {
        self.joypad
    }

    /// The bus with another cartridge state and nothing else changed.
    pub closed spec fn with_cart(self, cartridge: CartridgeKind) -> MMU {
        MMU { cartridge, ..self }
    }

    /// The bus with the audio queue emptied and nothing else changed.
    pub closed spec fn with_audio_drained(self) -> MMU {
        MMU { apu: self.apu.drained(), ..self }
    }

    pub closed spec fn serial_port(self) -> Serial {
        self.serial
    }

    pub closed spec fn clock(self) -> Timer {
        self.timer
    }

    pub closed spec fn iflag(self) -> u8 {
        self.interrupt_flag
    }

    pub closed spec fn dma_remaining(self) -> u8 {
        self.oam_dma_remaining
    }

    /// Whether a read of `address` is answered by the boot ROM.
    pub closed spec fn boot_rom_covers(self, address: u16) -> bool {
        &&& self.boot_rom_mapped
        &&& self.boot_rom is Some
        &&& (address as int) < self.boot_rom.unwrap()@.len()
    }

    // -----------------------------------------------------------------------
    // Reads
    // -----------------------------------------------------------------------

    /// The value of I/O register `address`.
    pub closed spec fn io_value(self, address: u16) -> u8 {
        if address == 0xFF00 {
            self.joypad.value()
        } else if address == 0xFF01 {
            self.serial.data()
        } else if address == 0xFF02 {
            self.serial.control()
        } else if address == 0xFF04 {
            (self.timer.system_counter / 256) as u8
        } else if address == 0xFF05 {
            self.timer.tima_read()
        } else if address == 0xFF06 {
            self.timer.tma
        } else if address == 0xFF07 {
            self.timer.tac
        } else if address == 0xFF0F {
            self.interrupt_flag
        } else if address == 0xFFFF {
            self.interrupt_enable
        } else if 0xFF10 <= address <= 0xFF3F {
            self.apu.reg_read(address)
        } else if 0xFF40 <= address <= 0xFF4B {
            self.ppu.peek(address)
        } else {
            // Unimplemented I/O registers read 0xFF on DMG (so that DMG/CGB
            // games identify the DMG, e.g. KEY1 at 0xFF4D).
            0xFF
        }
    }

    /// What a read of `address` returns.
    pub closed spec fn value_at(self, address: u16) -> u8 {
        if self.boot_rom_covers(address) {
            self.boot_rom.unwrap()@[address as int]
        } else {
            match region_of(address) {
                MemoryRegion::Cartridge => self.cartridge.peek(address),
                MemoryRegion::Ppu => self.ppu.peek(address),
                MemoryRegion::Wram => self.wram[(address & 0x1FFF) as int],
                MemoryRegion::Hram => self.hram[address - 0xFF80],
                MemoryRegion::Io => self.io_value(address),
                MemoryRegion::Unused => 0,
            }
        }
    }

    /// The bus after a read of `address` (only an OAM read during Mode 2
    /// changes anything).
    pub closed spec fn after_read(self, address: u16) -> MMU {
        if !self.boot_rom_covers(address) && region_of(address) == MemoryRegion::Ppu {
            MMU { ppu: self.ppu.read_effect(address), ..self }
        } else {
            self
        }
    }

    // -----------------------------------------------------------------------
    // Writes
    // -----------------------------------------------------------------------

    /// The bus after a write of `value` to I/O register `address`.
    pub closed spec fn io_written(self, address: u16, value: u8) -> MMU {
        if address == 0xFF00 {
            MMU { joypad: Joypad { select: value & 0x30, ..self.joypad }, ..self }
        } else if address == 0xFF01 {
            MMU { serial: self.serial.data_written(value), ..self }
        } else if address == 0xFF02 {
            let (s, completed) = self.serial.control_written(value);
            MMU {
                serial: s,
                interrupt_flag: if completed {
                    self.interrupt_flag | IF_SERIAL
                } else {
                    self.interrupt_flag
                },
                ..self
            }
        } else if address == 0xFF04 {
            // Resetting the counter can make a falling edge both on the
            // TIMA tap and on the frame-sequencer bit (12).
            MMU {
                timer: self.timer.divider_reset(),
                apu: self.apu.div_reset_seen(self.timer.system_counter),
                ..self
            }
        } else if address == 0xFF05 {
            MMU { timer: self.timer.tima_written(value), ..self }
        } else if address == 0xFF06 {
            MMU { timer: Timer { tma: value, ..self.timer }, ..self }
        } else if address == 0xFF07 {
            MMU { timer: self.timer.tac_written(value), ..self }
        } else if address == 0xFF0F {
            MMU { interrupt_flag: value, ..self }
        } else if address == 0xFFFF {
            MMU { interrupt_enable: value, ..self }
        } else if 0xFF10 <= address <= 0xFF3F {
            MMU { apu: self.apu.reg_written(address, value), ..self }
        } else if address == 0xFF46 {
            MMU {
                ppu: self.ppu.poke(0xFF46, value),
                oam_dma_source: (value as u16 * 256) as u16,
                oam_dma_remaining: OAM_DMA_CYCLES,
                ..self
            }
        } else if 0xFF40 <= address <= 0xFF4B {
            MMU { ppu: self.ppu.poke(address, value), ..self }
        } else if address == 0xFF50 {
            // The boot ROM's last act: unmap itself.
            MMU { boot_rom_mapped: false, ..self }
        } else {
            self
        }
    }

    /// The bus after a write of `value` to `address`.
    pub closed spec fn after_write(self, address: u16, value: u8) -> MMU {
        match region_of(address) {
            MemoryRegion::Cartridge => MMU { cartridge: self.cartridge.poke(address, value), ..self },
            MemoryRegion::Ppu => MMU { ppu: self.ppu.poke(address, value), ..self },
            MemoryRegion::Wram => MMU {
                wram: vstd::array::spec_array_update(self.wram, (address & 0x1FFF) as int, value),
                ..self
            },
            MemoryRegion::Hram => MMU {
                hram: vstd::array::spec_array_update(self.hram, address - 0xFF80, value),
                ..self
            },
            MemoryRegion::Io => self.io_written(address, value),
            MemoryRegion::Unused => self,
        }
    }

    // -----------------------------------------------------------------------
    // Clocking
    // -----------------------------------------------------------------------

    /// One machine cycle of OAM DMA.
    pub closed spec fn dma_stepped(self) -> MMU {
        if self.oam_dma_remaining == 0 {
            self
        } else {
            let remaining = (self.oam_dma_remaining - 1) as u8;
            let m = MMU { oam_dma_remaining: remaining, ..self };
            if remaining < 160 {
                let index = 159 - remaining;
                let source = self.oam_dma_source.wrapping_add(index as u16);
                let byte = m.value_at(source);
                let m2 = m.after_read(source);
                MMU {
                    ppu: PPU {
                        oam: vstd::array::spec_array_update(m2.ppu.oam, index, byte),
                        ..m2.ppu
                    },
                    ..m2
                }
            } else {
                m
            }
        }
    }

    /// One machine cycle: timer, PPU and APU advance by 4 T-cycles, then
    /// OAM DMA moves one byte.
    pub closed spec fn m_cycle(self) -> MMU {
        let counter = self.timer.system_counter;
        let (timer, f1) = self.timer.m_cycles(self.interrupt_flag, 1);
        let (ppu, f2) = self.ppu.stepped(4, f1);
        let apu = self.apu.m_cycles(counter, 1);
        MMU { timer, ppu, apu, interrupt_flag: f2, ..self }.dma_stepped()
    }

    // -----------------------------------------------------------------------
    // Executable code
    // -----------------------------------------------------------------------

    /// A bus with fresh devices around `cartridge`; with a boot ROM, the
    /// boot ROM is mapped and the timer and APU start from power-on.
    pub fn new(cartridge: CartridgeKind, boot_rom: Option<Vec<u8>>) -> (m: MMU)
        ensures
            m.wf(),
            forall|a: u16| #[trigger] m.boot_rom_covers(a) == (boot_rom is Some && (a as int) < boot_rom.unwrap()@.len()),
            m.cart() == cartridge,
            m.iflag() == 0,
            m.dma_remaining() == 0,
            m.serial_port().sent() == Seq::<u8>::empty(),
            m.video().ly == 0 && m.video().dot == 0,
            boot_rom is None ==> m.clock() == Timer::post_boot(),
            boot_rom is Some ==> m.clock() == Timer::power_on(),
            forall|a: u16| 0xC000 <= a <= 0xDFFF && !m.boot_rom_covers(a) ==> #[trigger] m.value_at(a) == 0,
    {
        let mapped = boot_rom.is_some();
        let (timer, apu) = if mapped {
            (Timer::cold_start(), APU::cold_start())
        } else {
            (Timer::new(), APU::post_boot())
        };
        let m = MMU {
            cartridge,
            apu,
            ppu: PPU::new(),
            joypad: Joypad::new(),
            serial: Serial::new(),
            timer,
            interrupt_flag: 0,
            interrupt_enable: 0,
            hram: [0u8; 0x7F],
            wram: [0u8; 0x2000],
            boot_rom,
            boot_rom_mapped: mapped,
            oam_dma_remaining: 0,
            oam_dma_source: 0,
        };
        proof {
            assert(forall|i: int| 0 <= i < 0x2000 ==> m.wram[i] == 0);
            assert forall|a: u16| 0xC000 <= a <= 0xDFFF && !m.boot_rom_covers(a) implies #[trigger] m.value_at(a) == 0 by {
                assert((a & 0x1FFF) < 0x2000) by (bit_vector);
            }
        }
        m
    }

    fn read_wram(&self, address: u16) -> (v: u8)
        ensures
            v == self.wram[(address & 0x1FFF) as int],
    {
        // Echo RAM (0xE000–0xFDFF) mirrors the same 8 KiB: the low 13 bits
        // index every range directly.
        proof {
            assert(address & 0x1FFF < 0x2000) by (bit_vector);
        }
        self.wram[(address & 0x1FFF) as usize]
    }

    fn write_wram(&mut self, address: u16, value: u8)
        requires
            old(self).wf(),
        ensures
            final(self).wf(),
            *final(self) == (MMU {
                wram: vstd::array::spec_array_update(old(self).wram, (address & 0x1FFF) as int, value),
                ..*old(self)
            }),
    {
        proof {
            assert(address & 0x1FFF < 0x2000) by (bit_vector);
        }
        self.wram[(address & 0x1FFF) as usize] = value;
    }

    /// Read an I/O register (no side effects).
    fn read_io(&self, address: u16) -> (v: u8)
        requires
            self.wf(),
        ensures
            v == self.io_value(address),
    {
        match address {
            0xFF00 => self.joypad.read(),
            0xFF01 => self.serial.read_data(),
            0xFF02 => self.serial.read_control(),
            0xFF04 => self.timer.div(),
            0xFF05 => self.timer.read_tima(),
            0xFF06 => self.timer.tma,
            0xFF07 => self.timer.tac,
            0xFF0F => self.interrupt_flag,
            0xFFFF => self.interrupt_enable,
            0xFF10..=0xFF3F => self.apu.read_byte(address),
            0xFF40..=0xFF4B => self.ppu.peek_byte(address),
            _ => 0xFF,
        }
    }

    /// Write an I/O register.
    fn write_io(&mut self, address: u16, value: u8)
        requires
            old(self).wf(),
        ensures
            final(self).wf(),
            *final(self) == old(self).io_written(address, value),
    {
        proof {
            crate::ppu::lemma_access_keeps_wf(self.ppu, address, value);
            crate::ppu::lemma_access_keeps_wf(self.ppu, 0xFF46, value);
        }
        match address {
            0xFF00 => self.joypad.write_select(value),
            0xFF01 => self.serial.write_data(value),
            0xFF02 => {
                if self.serial.write_control(value) {
                    self.interrupt_flag = self.interrupt_flag | IF_SERIAL;
                }
            },
            0xFF04 => {
                // The counter's old value tells the APU whether bit 12 fell.
                let old = self.timer.reset_divider();
                self.apu.notify_div_reset(old);
            },
            0xFF05 => self.timer.write_tima(value),
            0xFF06 => {
                self.timer.tma = value;
            },
            0xFF07 => self.timer.write_tac(value),
            0xFF0F => {
                self.interrupt_flag = value;
            },
            0xFFFF => {
                self.interrupt_enable = value;
            },
            0xFF10..=0xFF3F => self.apu.write_byte(address, value),
            0xFF46 => {
                // Start an OAM DMA transfer; the value also reads back at 0xFF46.
                self.ppu.write_byte(0xFF46, value);
                self.oam_dma_source = value as u16 * 256;
                self.oam_dma_remaining = OAM_DMA_CYCLES;
            },
            0xFF40..=0xFF4B => self.ppu.write_byte(address, value),
            0xFF50 => {
                // Writing 0xFF50 unmaps the boot ROM (its final act before
                // handing over at 0x0100).
                self.boot_rom_mapped = false;
            },
            _ => {},
        }
    }

    fn boot_rom_read(&self, address: u16) -> (r: Option<u8>)
        ensures
            self.boot_rom_covers(address) ==> r == Some(self.boot_rom.unwrap()@[address as int]),
            !self.boot_rom_covers(address) ==> r is None,
    {
        if self.boot_rom_mapped {
            match &self.boot_rom {
                Some(rom) => {
                    if (address as usize) < rom.len() {
                        return Some(rom[address as usize]);
                    }
                },
                None => {},
            }
        }
        None
    }

    /// Read `address` without side effects (for debuggers and test
    /// harnesses).
    pub fn peek_byte(&self, address: u16) -> (v: u8)
        requires
            self.wf(),
        ensures
            v == self.value_at(address),
    {
        if let Some(b) = self.boot_rom_read(address) {
            return b;
        }
        match get_memory_region(address) {
            MemoryRegion::Cartridge => self.cartridge_peek(address),
            MemoryRegion::Ppu => self.ppu.peek_byte(address),
            MemoryRegion::Wram => self.read_wram(address),
            MemoryRegion::Hram => self.hram[(address - 0xFF80) as usize],
            MemoryRegion::Io => self.read_io(address),
            MemoryRegion::Unused => 0,
        }
    }

    fn cartridge_peek(&self, address: u16) -> (v: u8)
        ensures
            v == self.cartridge.peek(address),
    {
        self.cartridge.peek_byte(address)
    }

    /// Route a read to the device behind `address`.  Used by the CPU and by
    /// OAM DMA (which has its own bus).
    fn read_byte_dispatch(&mut self, address: u16) -> (v: u8)
        requires
            old(self).wf(),
        ensures
            final(self).wf(),
            v == old(self).value_at(address),
            *final(self) == old(self).after_read(address),
    {
        proof {
            crate::ppu::lemma_access_keeps_wf(self.ppu, address, 0);
        }
        if let Some(b) = self.boot_rom_read(address) {
            return b;
        }
        match get_memory_region(address) {
            MemoryRegion::Cartridge => self.cartridge_peek(address),
            MemoryRegion::Ppu => self.ppu.read_byte(address),
            MemoryRegion::Wram => self.read_wram(address),
            MemoryRegion::Hram => self.hram[(address - 0xFF80) as usize],
            MemoryRegion::Io => self.read_io(address),
            MemoryRegion::Unused => 0,
        }
    }

    /// Advance an active OAM DMA transfer by one machine cycle: the first
    /// cycle (161 → 160) is a startup delay, each later one copies a byte.
    fn step_oam_dma(&mut self)
        requires
            old(self).wf(),
        ensures
            final(self).wf(),
            *final(self) == old(self).dma_stepped(),
    {
        if self.oam_dma_remaining > 0 {
            self.oam_dma_remaining = self.oam_dma_remaining - 1;
            if self.oam_dma_remaining < 160 {
                let byte_index = (159 - self.oam_dma_remaining) as usize;
                let src = self.oam_dma_source.wrapping_add(byte_index as u16);
                let byte = self.read_byte_dispatch(src);
                self.ppu.write_oam_direct(byte_index, byte);
            }
        }
    }

    pub fn serial(&self) -> (s: &Serial)
        ensures
            *s == self.serial_port(),
    {
        &self.serial
    }

    /// Drain the queued audio levels (see [`APU::drain_samples`]).
    pub fn drain_samples(&mut self) -> (levels: Vec<i16>)
        requires
            old(self).wf(),
        ensures
            final(self).wf(),
            levels@ == old(self).audio().queued(),
            final(self).audio() == old(self).audio().drained(),
            *final(self) == old(self).with_audio_drained(),
    {
        self.apu.drain_samples()
    }

    /// Battery-backed RAM for a `.sav` file, or `None` without a battery.
    pub fn save_data(&self) -> (data: Option<&[u8]>)
        ensures
            match data {
                Some(d) => self.cart().battery_ram() == Some(d@),
                None => self.cart().battery_ram() is None,
            },
    {
        self.cartridge.save_data()
    }

    /// Restore cartridge RAM from a `.sav` file.
    pub fn load_save_data(&mut self, data: &[u8])
        requires
            old(self).wf(),
        ensures
            final(self).wf(),
            final(self).cart() == old(self).cart().save_loaded(data@),
            *final(self) == old(self).with_cart(old(self).cart().save_loaded(data@)),
            final(self).serial_port() == old(self).serial_port(),
    {
        self.cartridge.load_save_data(data);
    }

    pub fn framebuffer(&self) -> (fb: &[u8; 23040])
        ensures
            *fb == self.video().framebuffer,
    {
        self.ppu.framebuffer()
    }

    /// Forward a button press; raises the joypad interrupt (IF bit 4) if the
    /// button's row is selected and the button was released.
    pub fn press_button(&mut self, button: Button)
        requires
            old(self).wf(),
        ensures
            final(self).wf(),
            final(self).pad() == old(self).pad().pressed(button),
            final(self).iflag() == (if !old(self).pad().is_pressed(button) && old(self).pad().row_selected(button) {
                old(self).iflag() | IF_JOYPAD
            } else {
                old(self).iflag()
            }),
    {
        if self.joypad.press(button) {
            self.interrupt_flag = self.interrupt_flag | IF_JOYPAD;
        }
    }

    /// Forward a button release; no interrupt fires on release.
    pub fn release_button(&mut self, button: Button)
        requires
            old(self).wf(),
        ensures
            final(self).wf(),
            final(self).pad() == old(self).pad().released(button),
            final(self).iflag() == old(self).iflag(),
    {
        self.joypad.release(button);
    }
}

impl Memory for MMU {
    open spec fn inv(&self) -> bool {
        self.wf()
    }

    closed spec fn peek(&self, address: u16) -> u8 {
        self.value_at(address)
    }

    closed spec fn read_effect(self, address: u16) -> Self {
        self.after_read(address)
    }

    closed spec fn poke(self, address: u16, value: u8) -> Self {
        self.after_write(address, value)
    }

    fn read_byte(&mut self, address: u16) -> (value: u8) {
        self.read_byte_dispatch(address)
    }

    fn write_byte(&mut self, address: u16, value: u8) {
        proof {
            crate::ppu::lemma_access_keeps_wf(self.ppu, address, value);
        }
        match get_memory_region(address) {
            MemoryRegion::Cartridge => self.cartridge.write_byte(address, value),
            MemoryRegion::Ppu => self.ppu.write_byte(address, value),
            MemoryRegion::Wram => self.write_wram(address, value),
            MemoryRegion::Hram => {
                self.hram[(address - 0xFF80) as usize] = value;
            },
            MemoryRegion::Io => self.write_io(address, value),
            MemoryRegion::Unused => {},
        }
    }
}

impl MemoryBus for MMU {
    closed spec fn ticked(self) -> Self {
        self.m_cycle()
    }

    /// Advance every device by one machine cycle (4 T-cycles).  The CPU
    /// calls this after each machine cycle of an instruction, so the timer,
    /// PPU and APU are in step at every bus access.
    fn tick_m_cycle(&mut self) {
        // The counter before the timer advances lets the APU see falling
        // edges of bit 12 over this machine cycle.
        let counter_before = self.timer.system_counter();
        self.timer.step(4, &mut self.interrupt_flag);
        self.ppu.step(4, &mut self.interrupt_flag);
        self.apu.step(4, counter_before);
        self.step_oam_dma();
    }
}

/// Work RAM reads back what was written, at the address written and at its
/// echo (0xE000–0xFDFF mirrors 0xC000–0xDDFF).
pub proof fn lemma_wram_read_back(m: MMU, offset: u16, value: u8)
    requires
        offset < 0x1E00,
        !m.boot_rom_covers((0xC000 + offset) as u16),
        !m.boot_rom_covers((0xE000 + offset) as u16),
    ensures
        m.after_write((0xC000 + offset) as u16, value).value_at((0xC000 + offset) as u16) == value,
        m.after_write((0xC000 + offset) as u16, value).value_at((0xE000 + offset) as u16) == value,
        m.after_write((0xE000 + offset) as u16, value).value_at((0xC000 + offset) as u16) == value,
{
    let a = (0xC000 + offset) as u16;
    let e = (0xE000 + offset) as u16;
    assert((a & 0x1FFF) == offset && (e & 0x1FFF) == offset && offset < 0x2000) by (bit_vector)
        requires
            offset < 0x1E00,
            a == 0xC000 + offset,
            e == 0xE000 + offset,
    ;
}

/// High RAM reads back what was written.
pub proof fn lemma_hram_read_back(m: MMU, address: u16, value: u8)
    requires
        0xFF80 <= address <= 0xFFFE,
        !m.boot_rom_covers(address),
    ensures
        m.after_write(address, value).value_at(address) == value,
{
}

/// IE and IF read back what was written.
pub proof fn lemma_interrupt_registers_read_back(m: MMU, value: u8)
    requires
        !m.boot_rom_covers(0xFFFF),
        !m.boot_rom_covers(0xFF0F),
    ensures
        m.after_write(0xFFFF, value).value_at(0xFFFF) == value,
        m.after_write(0xFF0F, value).value_at(0xFF0F) == value,
{
}

/// A machine cycle leaves work RAM and high RAM alone.
pub proof fn lemma_tick_keeps_ram(m: MMU, address: u16)
    requires
        0xC000 <= address <= 0xFDFF || 0xFF80 <= address <= 0xFFFE,
        !m.boot_rom_covers(address),
    ensures
        m.m_cycle().value_at(address) == m.value_at(address),
{
    let counter = m.timer.system_counter;
    let (timer, f1) = m.timer.m_cycles(m.interrupt_flag, 1);
    let (ppu, f2) = m.ppu.stepped(4, f1);
    let apu = m.apu.m_cycles(counter, 1);
    let m1 = MMU { timer, ppu, apu, interrupt_flag: f2, ..m };
    assert(m1.dma_stepped().wram == m.wram && m1.dma_stepped().hram == m.hram);
}

} // verus!
