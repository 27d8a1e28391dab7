//! Channel 4 — noise (LFSR).
//!
//! Ch4 generates pseudo-random noise by clocking a 15-bit linear-feedback
//! shift register.  NR43 bit 3 narrows it to 7 bits, for a coarser, more
//! periodic tone.  The clock rate comes from a 3-bit divisor and a 4-bit
//! shift.
//!
//! | Address | Name | Bits                                            |
//! |---------|------|-------------------------------------------------|
//! | FF20    | NR41 | `--LL LLLL` length load (write-only)            |
//! | FF21    | NR42 | `VVVV DPPP` env initial / dir / period          |
//! | FF22    | NR43 | `SSSS WDDD` clock shift / LFSR width / divisor  |
//! | FF23    | NR44 | `TL-- ----` trigger / length-enable             |
use vstd::prelude::*;
use crate::apu::units::{EnvDir, LengthCounter, VolumeEnvelope, env_dir_of, env_dir_bit};
use crate::apu::lemma_register_fields;

verus! {

#[derive(Debug, Clone, Copy, PartialEq, Eq, Structural)]
pub struct Channel4 {
    pub envelope: VolumeEnvelope,
    pub length: LengthCounter,
    /// NR43 bits 4–7: right shift of the base period.
    pub clock_shift: u8,
    /// NR43 bit 3: false = 15-bit LFSR, true = 7-bit (periodic).
    pub lfsr_narrow: bool,
    /// NR43 bits 0–2: base divisor (0 means 0.5).
    pub clock_div: u8,
    /// NR42 bits 3–7 not all zero.
    pub dac_on: bool,
    pub enabled: bool,
    /// Shift register; bit 0 is the current output.
    pub lfsr: u16,
    /// T-cycle countdown to the next LFSR clock.
    pub freq_timer: u32,
}

/// T-cycles between LFSR clocks: `(divisor == 0 ? 8 : divisor × 16) << shift`.
pub open spec fn noise_period(clock_div: u8, clock_shift: u8) -> u32 {
    let base: u32 = if clock_div == 0 {
        8
    } else {
        (clock_div as u32 * 16) as u32
    };
    base << clock_shift
}

/// The register after one LFSR clock: the XOR of bits 0 and 1 is shifted in
/// at bit 14 (and also bit 6 in narrow mode) as the register shifts right.
pub open spec fn lfsr_stepped(lfsr: u16, narrow: bool) -> u16 {
    let feedback = (lfsr ^ (lfsr >> 1)) & 1;
    let l = (lfsr >> 1) | (feedback << 14);
    if narrow {
        (l & 0xFFBF) | (feedback << 6)
    } else {
        l
    }
}

impl Channel4 {
    pub open spec fn wf(self) -> bool {
        &&& self.envelope.wf()
        &&& self.clock_shift <= 15
        &&& self.clock_div <= 7
    }

    pub open spec fn zero() -> Channel4 {
        Channel4 {
            envelope: VolumeEnvelope::zero(),
            length: LengthCounter::zero(),
            clock_shift: 0,
            lfsr_narrow: false,
            clock_div: 0,
            dac_on: false,
            enabled: false,
            lfsr: 0,
            freq_timer: 0,
        }
    }

    pub open spec fn reg_value(self, address: u16) -> u8 {
        if address == 0xFF21 {
            ((self.envelope.initial << 4) | (env_dir_bit(self.envelope.dir) << 3)
                | self.envelope.period) as u8
        } else if address == 0xFF22 {
            ((self.clock_shift << 4) | (if self.lfsr_narrow {
                8u8
            } else {
                0u8
            }) | self.clock_div) as u8
        } else if address == 0xFF23 {
            if self.length.enabled {
                0x40
            } else {
                0
            }
        } else {
            0
        }
    }

    pub open spec fn triggered(self, frame_seq_step: u8) -> Channel4 {
        let c = Channel4 {
            enabled: self.dac_on,
            length: if self.length.value == 0 {
                LengthCounter { value: 64, ..self.length }
            } else {
                self.length
            },
            envelope: self.envelope.triggered(),
            lfsr: 0x7FFF,
            freq_timer: noise_period(self.clock_div, self.clock_shift),
            ..self
        };
        if c.length.enabled && frame_seq_step & 1 == 1 {
            Channel4 {
                length: c.length.clocked(),
                enabled: if c.length.expires() {
                    false
                } else {
                    c.enabled
                },
                ..c
            }
        } else {
            c
        }
    }

    pub open spec fn written(self, address: u16, value: u8, frame_seq_step: u8) -> Channel4 {
        if address == 0xFF20 {
            Channel4 { length: LengthCounter { value: (64 - (value & 0x3F)) as u16, ..self.length }, ..self }
        } else if address == 0xFF21 {
            let dac_on = value & 0xF8 != 0;
            Channel4 {
                envelope: VolumeEnvelope {
                    initial: (value >> 4) & 0x0F,
                    dir: env_dir_of(value & 0x08 != 0),
                    period: value & 0x07,
                    ..self.envelope
                },
                dac_on,
                enabled: if dac_on {
                    self.enabled
                } else {
                    false
                },
                ..self
            }
        } else if address == 0xFF22 {
            Channel4 {
                clock_shift: (value >> 4) & 0x0F,
                lfsr_narrow: value & 0x08 != 0,
                clock_div: value & 0x07,
                ..self
            }
        } else if address == 0xFF23 {
            let c = Channel4 {
                length: LengthCounter { enabled: value & 0x40 != 0, ..self.length },
                ..self
            };
            if value & 0x80 != 0 {
                c.triggered(frame_seq_step)
            } else {
                c
            }
        } else {
            self
        }
    }

    pub open spec fn timer_ticked(self) -> Channel4 {
        let t = if self.freq_timer > 0 {
            (self.freq_timer - 1) as u32
        } else {
            0
        };
        if t == 0 {
            Channel4 {
                freq_timer: noise_period(self.clock_div, self.clock_shift),
                lfsr: lfsr_stepped(self.lfsr, self.lfsr_narrow),
                ..self
            }
        } else {
            Channel4 { freq_timer: t, ..self }
        }
    }

    /// The channel after one length clock: it stops when the counter runs out.
    pub open spec fn length_clocked(self) -> Channel4 {
        Channel4 {
            length: self.length.clocked(),
            enabled: if self.length.expires() {
                false
            } else {
                self.enabled
            },
            ..self
        }
    }

    /// One length clock (256 Hz).
    pub fn clock_length(&mut self)
        ensures
            *final(self) == old(self).length_clocked(),
    {
        if self.length.clock() {
            self.enabled = false;
        }
    }

    pub fn new() -> (c: Channel4)
        ensures
            c == Channel4::zero(),
            c.wf(),
    {
        Channel4 {
            envelope: VolumeEnvelope::new(),
            length: LengthCounter::new(),
            clock_shift: 0,
            lfsr_narrow: false,
            clock_div: 0,
            dac_on: false,
            enabled: false,
            lfsr: 0,
            freq_timer: 0,
        }
    }

    pub fn read(&self, address: u16) -> (v: u8)
        ensures
            v == self.reg_value(address),
    {
        match address {
            0xFF20 => 0,  // write-only
            0xFF21 => (self.envelope.initial << 4) | (self.envelope.dir.bit() << 3)
                | self.envelope.period,
            0xFF22 => {
                let narrow: u8 = if self.lfsr_narrow {
                    8
                } else {
                    0
                };
                (self.clock_shift << 4) | narrow | self.clock_div
            },
            0xFF23 => {
                if self.length.enabled {
                    0x40
                } else {
                    0
                }
            },
            _ => 0,
        }
    }

    pub fn write(&mut self, address: u16, value: u8, frame_seq_step: u8)
        requires
            old(self).wf(),
        ensures
            *final(self) == old(self).written(address, value, frame_seq_step),
            final(self).wf(),
    {
        proof {
            lemma_register_fields(value, 0);
        }
        match address {
            0xFF20 => {
                self.length.value = 64 - (value & 0x3F) as u16;
            },
            0xFF21 => {
                self.envelope.initial = (value >> 4) & 0x0F;
                self.envelope.dir = EnvDir::from_bit(value & 0x08 != 0);
                self.envelope.period = value & 0x07;
                self.dac_on = value & 0xF8 != 0;
                if !self.dac_on {
                    self.enabled = false;
                }
            },
            0xFF22 => {
                self.clock_shift = (value >> 4) & 0x0F;
                self.lfsr_narrow = value & 0x08 != 0;
                self.clock_div = value & 0x07;
            },
            0xFF23 => {
                self.length.enabled = value & 0x40 != 0;
                if value & 0x80 != 0 {
                    self.trigger(frame_seq_step);
                }
            },
            _ => {},
        }
    }

    /// Clock the frequency timer by one T-cycle; when it expires, clock the
    /// LFSR and reload the timer.
    pub fn tick_timer(&mut self)
        requires
            old(self).wf(),
        ensures
            *final(self) == old(self).timer_ticked(),
            final(self).wf(),
    {
        if self.freq_timer > 0 {
            self.freq_timer = self.freq_timer - 1;
        }
        if self.freq_timer == 0 {
            self.freq_timer = self.period_t_cycles();
            self.clock_lfsr();
        }
    }

    /// Advance the LFSR by one step.
    fn clock_lfsr(&mut self)
        ensures
            *final(self) == (Channel4 { lfsr: lfsr_stepped(old(self).lfsr, old(self).lfsr_narrow), ..*old(self) }),
    {
        let feedback = (self.lfsr ^ (self.lfsr >> 1)) & 1;
        self.lfsr = (self.lfsr >> 1) | (feedback << 14);
        if self.lfsr_narrow {
            // Replace bit 6 with the same feedback bit for a 7-bit period.
            self.lfsr = (self.lfsr & 0xFFBF) | (feedback << 6);
        }
    }

    fn trigger(&mut self, frame_seq_step: u8)
        requires
            old(self).wf(),
        ensures
            *final(self) == old(self).triggered(frame_seq_step),
            final(self).wf(),
    {
        self.enabled = self.dac_on;
        if self.length.value == 0 {
            self.length.value = 64;
        }
        self.envelope.trigger();
        self.lfsr = 0x7FFF;  // all bits set
        self.freq_timer = self.period_t_cycles();
        if self.length.enabled && frame_seq_step & 1 == 1 && self.length.clock() {
            self.enabled = false;
        }
    }

    /// T-cycles between LFSR clocks: `(divisor == 0 ? 8 : divisor × 16) << shift`.
    pub fn period_t_cycles(&self) -> (p: u32)
        requires
            self.wf(),
        ensures
            p == noise_period(self.clock_div, self.clock_shift),
    {
        let base: u32 = if self.clock_div == 0 {
            8
        } else {
            self.clock_div as u32 * 16
        };
        base << self.clock_shift
    }
}

impl Default for Channel4 {
    fn default() -> (c: Self)
        ensures
            c == Channel4::zero(),
    {
        Channel4::new()
    }
}

} // verus!
