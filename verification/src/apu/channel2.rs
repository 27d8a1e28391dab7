//! Channel 2 — pulse wave (no sweep).
//!
//! Identical to Ch1 except there is no frequency sweep unit.  The register
//! at 0xFF15 is unmapped (reads 0xFF, writes ignored).
//!
//! | Address | Name | Bits                                            |
//! |---------|------|-------------------------------------------------|
//! | FF15    | —    | unmapped                                        |
//! | FF16    | NR21 | `DDLL LLLL` duty / length load                  |
//! | FF17    | NR22 | `VVVV DPPP` env initial / dir / period          |
//! | FF18    | NR23 | `FFFF FFFF` freq bits 0–7 (write-only)          |
//! | FF19    | NR24 | `TL-- -FFF` trigger / length-enable / freq 8–10 |
use vstd::prelude::*;
use crate::apu::units::{EnvDir, LengthCounter, VolumeEnvelope, env_dir_of, env_dir_bit};
use crate::apu::lemma_register_fields;

verus! {

#[derive(Debug, Clone, Copy, PartialEq, Eq, Structural)]
pub struct Channel2 {
    /// NR21 bits 6–7: wave duty (0–3 → 12.5/25/50/75 %).
    pub duty: u8,
    pub envelope: VolumeEnvelope,
    pub length: LengthCounter,
    /// 11-bit frequency: NR23 = bits 0–7, NR24 = bits 8–10.
    pub freq: u16,
    /// DAC powered: NR22 bits 3–7 not all zero.
    pub dac_on: bool,
    pub enabled: bool,
    /// T-cycle countdown; reloads with (2048 − freq) × 4.
    pub freq_timer: u16,
    /// Position 0–7 in the duty-cycle pattern.
    pub phase: u8,
}

impl Channel2 {
    pub open spec fn wf(self) -> bool {
        &&& self.duty <= 3
        &&& self.envelope.wf()
        &&& self.freq <= 2047
        &&& self.phase <= 7
    }

    pub open spec fn zero() -> Channel2 {
        Channel2 {
            duty: 0,
            envelope: VolumeEnvelope::zero(),
            length: LengthCounter::zero(),
            freq: 0,
            dac_on: false,
            enabled: false,
            freq_timer: 0,
            phase: 0,
        }
    }

    pub open spec fn reg_value(self, address: u16) -> u8 {
        if address == 0xFF16 {
            (self.duty << 6) as u8
        } else if address == 0xFF17 {
            ((self.envelope.initial << 4) | (env_dir_bit(self.envelope.dir) << 3)
                | self.envelope.period) as u8
        } else if address == 0xFF19 {
            if self.length.enabled {
                0x40
            } else {
                0
            }
        } else {
            0
        }
    }

    /// Trigger.  The length counter gets an extra clock when the frame
    /// sequencer's next step does not clock length (`frame_seq_step` odd).
    pub open spec fn triggered(self, frame_seq_step: u8) -> Channel2 {
        let c = Channel2 {
            enabled: self.dac_on,
            length: if self.length.value == 0 {
                LengthCounter { value: 64, ..self.length }
            } else {
                self.length
            },
            freq_timer: ((2048 - self.freq) * 4) as u16,
            envelope: self.envelope.triggered(),
            ..self
        };
        if c.length.enabled && frame_seq_step & 1 == 1 {
            Channel2 {
                length: c.length.clocked(),
                enabled: if c.length.expires() {
                    false
                } else {
                    c.enabled
                },
                ..c
            }
        } else {
            c
        }
    }

    pub open spec fn written(self, address: u16, value: u8, frame_seq_step: u8) -> Channel2 {
        if address == 0xFF16 {
            Channel2 {
                duty: (value >> 6) & 0x03,
                length: LengthCounter { value: (64 - (value & 0x3F)) as u16, ..self.length },
                ..self
            }
        } else if address == 0xFF17 {
            let dac_on = value & 0xF8 != 0;
            Channel2 {
                envelope: VolumeEnvelope {
                    initial: (value >> 4) & 0x0F,
                    dir: env_dir_of(value & 0x08 != 0),
                    period: value & 0x07,
                    ..self.envelope
                },
                dac_on,
                enabled: if dac_on {
                    self.enabled
                } else {
                    false
                },
                ..self
            }
        } else if address == 0xFF18 {
            Channel2 { freq: (self.freq & 0x700) | (value as u16), ..self }
        } else if address == 0xFF19 {
            let c = Channel2 {
                freq: (self.freq & 0x0FF) | (((value & 0x07) as u16) << 8),
                length: LengthCounter { enabled: value & 0x40 != 0, ..self.length },
                ..self
            };
            if value & 0x80 != 0 {
                c.triggered(frame_seq_step)
            } else {
                c
            }
        } else {
            self
        }
    }

    pub open spec fn timer_ticked(self) -> Channel2 {
        let t = if self.freq_timer > 0 {
            (self.freq_timer - 1) as u16
        } else {
            0
        };
        if t == 0 {
            Channel2 {
                freq_timer: ((2048 - self.freq) * 4) as u16,
                phase: ((self.phase + 1) as u8) & 7,
                ..self
            }
        } else {
            Channel2 { freq_timer: t, ..self }
        }
    }

    /// The channel after one length clock: it stops when the counter runs out.
    pub open spec fn length_clocked(self) -> Channel2 {
        Channel2 {
            length: self.length.clocked(),
            enabled: if self.length.expires() {
                false
            } else {
                self.enabled
            },
            ..self
        }
    }

    /// One length clock (256 Hz).
    pub fn clock_length(&mut self)
        ensures
            *final(self) == old(self).length_clocked(),
    {
        if self.length.clock() {
            self.enabled = false;
        }
    }

    pub fn new() -> (c: Channel2)
        ensures
            c == Channel2::zero(),
            c.wf(),
    {
        Channel2 {
            duty: 0,
            envelope: VolumeEnvelope::new(),
            length: LengthCounter::new(),
            freq: 0,
            dac_on: false,
            enabled: false,
            freq_timer: 0,
            phase: 0,
        }
    }

    pub fn read(&self, address: u16) -> (v: u8)
        ensures
            v == self.reg_value(address),
    {
        match address {
            0xFF15 => 0,  // unmapped (OR mask 0xFF applied by the APU)
            0xFF16 => self.duty << 6,  // length bits 0–5 are write-only
            0xFF17 => (self.envelope.initial << 4) | (self.envelope.dir.bit() << 3)
                | self.envelope.period,
            0xFF18 => 0,  // write-only
            0xFF19 => {
                if self.length.enabled {
                    0x40
                } else {
                    0
                }
            },
            _ => 0,
        }
    }

    pub fn write(&mut self, address: u16, value: u8, frame_seq_step: u8)
        requires
            old(self).wf(),
        ensures
            *final(self) == old(self).written(address, value, frame_seq_step),
            final(self).wf(),
    {
        proof {
            lemma_register_fields(value, self.freq);
        }
        match address {
            0xFF15 => {},  // unmapped
            0xFF16 => {
                self.duty = (value >> 6) & 0x03;
                self.length.value = 64 - (value & 0x3F) as u16;
            },
            0xFF17 => {
                self.envelope.initial = (value >> 4) & 0x0F;
                self.envelope.dir = EnvDir::from_bit(value & 0x08 != 0);
                self.envelope.period = value & 0x07;
                self.dac_on = value & 0xF8 != 0;
                if !self.dac_on {
                    self.enabled = false;
                }
            },
            0xFF18 => {
                self.freq = (self.freq & 0x700) | value as u16;
            },
            0xFF19 => {
                self.freq = (self.freq & 0x0FF) | (((value & 0x07) as u16) << 8);
                self.length.enabled = value & 0x40 != 0;
                if value & 0x80 != 0 {
                    self.trigger(frame_seq_step);
                }
            },
            _ => {},
        }
    }

    /// Clock the frequency timer by one T-cycle.
    pub fn tick_timer(&mut self)
        requires
            old(self).wf(),
        ensures
            *final(self) == old(self).timer_ticked(),
            final(self).wf(),
    {
        proof {
            lemma_register_fields((self.phase + 1) as u8, self.freq);
        }
        if self.freq_timer > 0 {
            self.freq_timer = self.freq_timer - 1;
        }
        if self.freq_timer == 0 {
            self.freq_timer = (2048 - self.freq) * 4;
            self.phase = (self.phase + 1) & 7;
        }
    }

    fn trigger(&mut self, frame_seq_step: u8)
        requires
            old(self).wf(),
        ensures
            *final(self) == old(self).triggered(frame_seq_step),
            final(self).wf(),
    {
        self.enabled = self.dac_on;
        if self.length.value == 0 {
            self.length.value = 64;
        }
        self.freq_timer = (2048 - self.freq) * 4;
        self.envelope.trigger();
        // Extra length clock when the frame sequencer's next step won't clock
        // length (`frame_seq_step` already points at the next step).
        if self.length.enabled && frame_seq_step & 1 == 1 && self.length.clock() {
            self.enabled = false;
        }
    }
}

impl Default for Channel2 {
    fn default() -> (c: Self)
        ensures
            c == Channel2::zero(),
    {
        Channel2::new()
    }
}

} // verus!
