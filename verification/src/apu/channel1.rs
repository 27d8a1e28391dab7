//! Channel 1 — pulse wave with frequency sweep.
//!
//! Ch1 generates a square wave with a programmable duty cycle.  A frequency
//! sweep unit can slide the pitch up or down at 128 Hz; the channel is
//! silenced if the swept frequency would overflow the 11-bit register
//! (> 2047).
//!
//! | Address | Name | Bits                                            |
//! |---------|------|-------------------------------------------------|
//! | FF10    | NR10 | `-PPP NSSS` sweep period / negate / shift       |
//! | FF11    | NR11 | `DDLL LLLL` duty / length load                  |
//! | FF12    | NR12 | `VVVV DPPP` env initial / dir / period          |
//! | FF13    | NR13 | `FFFF FFFF` freq bits 0–7 (write-only)          |
//! | FF14    | NR14 | `TL-- -FFF` trigger / length-enable / freq 8–10 |
use vstd::prelude::*;
use crate::apu::units::{EnvDir, LengthCounter, VolumeEnvelope, env_dir_of, env_dir_bit};
use crate::apu::lemma_register_fields;

verus! {

/// Frequency sweep unit attached to Ch1.
///
/// Every `period` sweep clocks (128 Hz) the shadow frequency is shifted
/// right by `shift` bits and the delta added to or subtracted from it.  A
/// `period` of 0 disables updates (the timer still runs with period 8); a
/// `shift` of 0 applies no delta.
#[derive(Debug, Clone, Copy, PartialEq, Eq, Structural)]
pub struct FreqSweep {
    /// NR10 bits 4–6 (0 = updates disabled).
    pub period: u8,
    /// NR10 bit 3: false = add (pitch up), true = subtract (pitch down).
    pub negate: bool,
    /// NR10 bits 0–2: right-shift applied to the shadow frequency.
    pub shift: u8,
}

#[derive(Debug, Clone, Copy, PartialEq, Eq, Structural)]
pub struct Channel1 {
    pub sweep: FreqSweep,
    /// NR11 bits 6–7: wave duty (0–3 → 12.5/25/50/75 %).
    pub duty: u8,
    pub envelope: VolumeEnvelope,
    pub length: LengthCounter,
    /// 11-bit frequency: NR13 = bits 0–7, NR14 = bits 8–10.
    pub freq: u16,
    /// DAC powered: NR12 bits 3–7 not all zero.
    pub dac_on: bool,
    /// The channel is producing output.
    pub enabled: bool,
    /// T-cycle countdown; reloads with (2048 − freq) × 4.
    pub freq_timer: u16,
    /// Position 0–7 in the duty-cycle pattern.
    pub phase: u8,
    /// Shadow copy of `freq` used by the sweep.
    pub sweep_freq: u16,
    /// Countdown to the next sweep tick.
    pub sweep_timer: u8,
    /// The sweep unit is tracking.
    pub sweep_active: bool,
}

impl Channel1 {
    pub open spec fn wf(self) -> bool {
        &&& self.sweep.period <= 7
        &&& self.sweep.shift <= 7
        &&& self.duty <= 3
        &&& self.envelope.wf()
        &&& self.freq <= 2047
        &&& self.phase <= 7
        &&& self.sweep_freq <= 2047
    }

    pub open spec fn zero() -> Channel1 {
        Channel1 {
            sweep: FreqSweep { period: 0, negate: false, shift: 0 },
            duty: 0,
            envelope: VolumeEnvelope::zero(),
            length: LengthCounter::zero(),
            freq: 0,
            dac_on: false,
            enabled: false,
            freq_timer: 0,
            phase: 0,
            sweep_freq: 0,
            sweep_timer: 0,
            sweep_active: false,
        }
    }

    /// The register value at `address` (before the APU's OR mask).
    pub open spec fn reg_value(self, address: u16) -> u8 {
        if address == 0xFF10 {
            ((self.sweep.period << 4) | (if self.sweep.negate {
                8u8
            } else {
                0u8
            }) | self.sweep.shift) as u8
        } else if address == 0xFF11 {
            (self.duty << 6) as u8
        } else if address == 0xFF12 {
            ((self.envelope.initial << 4) | (env_dir_bit(self.envelope.dir) << 3)
                | self.envelope.period) as u8
        } else if address == 0xFF14 {
            if self.length.enabled {
                0x40
            } else {
                0
            }
        } else {
            0
        }
    }

    /// The next sweep frequency, or `None` on 11-bit overflow.
    pub open spec fn sweep_next(self) -> Option<u16> {
        let delta = self.sweep_freq >> self.sweep.shift;
        let next: int = if self.sweep.negate {
            self.sweep_freq - delta
        } else {
            self.sweep_freq + delta
        };
        if next > 2047 {
            None
        } else {
            Some(next as u16)
        }
    }

    pub open spec fn triggered(self) -> Channel1 {
        let c = Channel1 {
            enabled: self.dac_on,
            length: if self.length.value == 0 {
                LengthCounter { value: 64, ..self.length }
            } else {
                self.length
            },
            freq_timer: ((2048 - self.freq) * 4) as u16,
            envelope: self.envelope.triggered(),
            sweep_freq: self.freq,
            sweep_timer: if self.sweep.period != 0 {
                self.sweep.period
            } else {
                8
            },
            sweep_active: self.sweep.period != 0 || self.sweep.shift != 0,
            ..self
        };
        if self.sweep.shift != 0 && c.sweep_next() is None {
            Channel1 { enabled: false, ..c }
        } else {
            c
        }
    }

    pub open spec fn written(self, address: u16, value: u8) -> Channel1 {
        if address == 0xFF10 {
            Channel1 {
                sweep: FreqSweep {
                    period: (value >> 4) & 0x07,
                    negate: value & 0x08 != 0,
                    shift: value & 0x07,
                },
                ..self
            }
        } else if address == 0xFF11 {
            Channel1 {
                duty: (value >> 6) & 0x03,
                length: LengthCounter { value: (64 - (value & 0x3F)) as u16, ..self.length },
                ..self
            }
        } else if address == 0xFF12 {
            let dac_on = value & 0xF8 != 0;
            Channel1 {
                envelope: VolumeEnvelope {
                    initial: (value >> 4) & 0x0F,
                    dir: env_dir_of(value & 0x08 != 0),
                    period: value & 0x07,
                    ..self.envelope
                },
                dac_on,
                enabled: if dac_on {
                    self.enabled
                } else {
                    false
                },
                ..self
            }
        } else if address == 0xFF13 {
            Channel1 { freq: (self.freq & 0x700) | (value as u16), ..self }
        } else if address == 0xFF14 {
            let c = Channel1 {
                freq: (self.freq & 0x0FF) | (((value & 0x07) as u16) << 8),
                length: LengthCounter { enabled: value & 0x40 != 0, ..self.length },
                ..self
            };
            if value & 0x80 != 0 {
                c.triggered()
            } else {
                c
            }
        } else {
            self
        }
    }

    /// The channel after one T-cycle of its frequency timer.
    pub open spec fn timer_ticked(self) -> Channel1 {
        let t = if self.freq_timer > 0 {
            (self.freq_timer - 1) as u16
        } else {
            0
        };
        if t == 0 {
            Channel1 {
                freq_timer: ((2048 - self.freq) * 4) as u16,
                phase: ((self.phase + 1) as u8) & 7,
                ..self
            }
        } else {
            Channel1 { freq_timer: t, ..self }
        }
    }

    /// The channel after one sweep clock.
    pub open spec fn sweep_clocked(self) -> Channel1 {
        let timer = if self.sweep_timer > 0 {
            (self.sweep_timer - 1) as u8
        } else {
            0
        };
        if timer != 0 {
            Channel1 { sweep_timer: timer, ..self }
        } else {
            let c = Channel1 {
                sweep_timer: if self.sweep.period != 0 {
                    self.sweep.period
                } else {
                    8
                },
                ..self
            };
            if c.sweep_active && c.sweep.period != 0 {
                match c.sweep_next() {
                    Some(new_freq) => {
                        let c2 = if c.sweep.shift != 0 {
                            Channel1 { sweep_freq: new_freq, freq: new_freq, ..c }
                        } else {
                            c
                        };
                        if c2.sweep_next() is None {
                            Channel1 { enabled: false, ..c2 }
                        } else {
                            c2
                        }
                    },
                    None => Channel1 { enabled: false, ..c },
                }
            } else {
                c
            }
        }
    }

    /// The channel after one length clock: it stops when the counter runs out.
    pub open spec fn length_clocked(self) -> Channel1 {
        Channel1 {
            length: self.length.clocked(),
            enabled: if self.length.expires() {
                false
            } else {
                self.enabled
            },
            ..self
        }
    }

    /// One length clock (256 Hz).
    pub fn clock_length(&mut self)
        ensures
            *final(self) == old(self).length_clocked(),
    {
        if self.length.clock() {
            self.enabled = false;
        }
    }

    pub fn new() -> (c: Channel1)
        ensures
            c == Channel1::zero(),
            c.wf(),
    {
        Channel1 {
            sweep: FreqSweep { period: 0, negate: false, shift: 0 },
            duty: 0,
            envelope: VolumeEnvelope::new(),
            length: LengthCounter::new(),
            freq: 0,
            dac_on: false,
            enabled: false,
            freq_timer: 0,
            phase: 0,
            sweep_freq: 0,
            sweep_timer: 0,
            sweep_active: false,
        }
    }

    /// Return the register value.  The APU applies OR masks before handing
    /// it to the CPU.
    pub fn read(&self, address: u16) -> (v: u8)
        ensures
            v == self.reg_value(address),
    {
        match address {
            0xFF10 => {
                let negate: u8 = if self.sweep.negate {
                    8
                } else {
                    0
                };
                (self.sweep.period << 4) | negate | self.sweep.shift
            },
            0xFF11 => self.duty << 6,  // length bits 0–5 are write-only
            0xFF12 => (self.envelope.initial << 4) | (self.envelope.dir.bit() << 3)
                | self.envelope.period,
            0xFF13 => 0,  // write-only (OR mask 0xFF applied by the APU)
            0xFF14 => {
                if self.length.enabled {
                    0x40
                } else {
                    0
                }
            },
            _ => 0,
        }
    }

    pub fn write(&mut self, address: u16, value: u8)
        requires
            old(self).wf(),
        ensures
            *final(self) == old(self).written(address, value),
            final(self).wf(),
    {
        proof {
            lemma_register_fields(value, self.freq);
        }
        match address {
            0xFF10 => {
                self.sweep.period = (value >> 4) & 0x07;
                self.sweep.negate = value & 0x08 != 0;
                self.sweep.shift = value & 0x07;
            },
            0xFF11 => {
                self.duty = (value >> 6) & 0x03;
                self.length.value = 64 - (value & 0x3F) as u16;
            },
            0xFF12 => {
                self.envelope.initial = (value >> 4) & 0x0F;
                self.envelope.dir = EnvDir::from_bit(value & 0x08 != 0);
                self.envelope.period = value & 0x07;
                self.dac_on = value & 0xF8 != 0;
                if !self.dac_on {
                    self.enabled = false;
                }
            },
            0xFF13 => {
                self.freq = (self.freq & 0x700) | value as u16;
            },
            0xFF14 => {
                self.freq = (self.freq & 0x0FF) | (((value & 0x07) as u16) << 8);
                self.length.enabled = value & 0x40 != 0;
                if value & 0x80 != 0 {
                    self.trigger();
                }
            },
            _ => {},
        }
    }

    fn trigger(&mut self)
        requires
            old(self).wf(),
        ensures
            *final(self) == old(self).triggered(),
            final(self).wf(),
    {
        self.enabled = self.dac_on;
        if self.length.value == 0 {
            self.length.value = 64;
        }
        self.freq_timer = (2048 - self.freq) * 4;
        self.envelope.trigger();
        self.sweep_freq = self.freq;
        self.sweep_timer = if self.sweep.period != 0 {
            self.sweep.period
        } else {
            8
        };
        self.sweep_active = self.sweep.period != 0 || self.sweep.shift != 0;
        // A non-zero shift checks for overflow at once, without updating the
        // frequency (that waits for the first sweep clock).
        if self.sweep.shift != 0 && self.calc_sweep_freq().is_none() {
            self.enabled = false;
        }
    }

    /// Clock the frequency timer by one T-cycle.  When it expires the duty
    /// phase advances and the timer reloads.
    pub fn tick_timer(&mut self)
        requires
            old(self).wf(),
        ensures
            *final(self) == old(self).timer_ticked(),
            final(self).wf(),
    {
        proof {
            lemma_register_fields((self.phase + 1) as u8, self.freq);
        }
        if self.freq_timer > 0 {
            self.freq_timer = self.freq_timer - 1;
        }
        if self.freq_timer == 0 {
            self.freq_timer = (2048 - self.freq) * 4;
            self.phase = (self.phase + 1) & 7;
        }
    }

    /// Clock the frequency sweep (128 Hz, frame-sequencer steps 2 and 6):
    /// update `sweep_freq` and `freq`, or disable the channel on overflow.
    pub fn clock_sweep(&mut self)
        requires
            old(self).wf(),
        ensures
            *final(self) == old(self).sweep_clocked(),
            final(self).wf(),
    {
        if self.sweep_timer > 0 {
            self.sweep_timer = self.sweep_timer - 1;
        }
        if self.sweep_timer == 0 {
            self.sweep_timer = if self.sweep.period != 0 {
                self.sweep.period
            } else {
                8
            };
            if self.sweep_active && self.sweep.period != 0 {
                match self.calc_sweep_freq() {
                    Some(new_freq) => {
                        if self.sweep.shift != 0 {
                            self.sweep_freq = new_freq;
                            self.freq = new_freq;
                        }
                        // Second overflow check after the update.
                        if self.calc_sweep_freq().is_none() {
                            self.enabled = false;
                        }
                    },
                    None => {
                        self.enabled = false;
                    },
                }
            }
        }
    }

    /// The next sweep frequency, without writing it back; `None` on 11-bit
    /// overflow (> 2047), which silences the channel.
    pub fn calc_sweep_freq(&self) -> (next: Option<u16>)
        requires
            self.wf(),
        ensures
            next == self.sweep_next(),
            next matches Some(f) ==> f <= 2047,
    {
        let sweep_freq = self.sweep_freq;
        let shift = self.sweep.shift;
        let delta = sweep_freq >> shift;
        proof {
            assert(delta <= sweep_freq) by (bit_vector)
                requires
                    delta == sweep_freq >> shift,
            ;
        }
        let next = if self.sweep.negate {
            self.sweep_freq - delta
        } else {
            self.sweep_freq + delta
        };
        if next > 2047 {
            None
        } else {
            Some(next)
        }
    }
}

impl Default for Channel1 {
    fn default() -> (c: Self)
        ensures
            c == Channel1::zero(),
    {
        Channel1::new()
    }
}

proof fn lemma_register_bits(v: u8)
    by (bit_vector)
    ensures
        ((((v >> 4u8) & 0x07u8) << 4u8) | (if v & 0x08u8 != 0 { 8u8 } else { 0u8 }) | (v
            & 0x07u8)) == v & 0x7Fu8,
        (((v >> 6u8) & 0x03u8) << 6u8) == v & 0xC0u8,
        ((((v >> 4u8) & 0x0Fu8) << 4u8) | ((if v & 0x08u8 != 0 { 1u8 } else { 0u8 }) << 3u8) | (v
            & 0x07u8)) == v,
        (v & 0x40u8 != 0 ==> v & 0x40u8 == 0x40u8) && (v & 0x40u8 == 0 ==> v & 0x40u8 == 0u8),
{
}

/// A register reads back what was written to it, less its write-only bits:
/// NR10 all but bit 7, NR11 only the duty (bits 6-7), NR12 every bit, NR14
/// only the length enable (bit 6), and NR13 nothing.
pub proof fn lemma_register_read_back(c: Channel1, value: u8)
    ensures
        c.written(0xFF10, value).reg_value(0xFF10) == value & 0x7F,
        c.written(0xFF11, value).reg_value(0xFF11) == value & 0xC0,
        c.written(0xFF12, value).reg_value(0xFF12) == value,
        c.written(0xFF13, value).reg_value(0xFF13) == 0,
        c.written(0xFF14, value).reg_value(0xFF14) == value & 0x40,
{
    lemma_register_bits(value);
}

proof fn lemma_nr12_bits(v: u8)
    by (bit_vector)
    ensures
        (v >> 4u8) & 0x0F == v / 16,
        v & 0x07 == v % 8,
        (v & 0x08 != 0) == ((v / 8) % 2 == 1),
        (v & 0xF8 != 0) == (v >= 8),
{
}

/// NR12 as the channel decodes it: bits 7–4 are the initial volume, bit 3
/// the direction (set: the volume rises), bits 2–0 the envelope period; the
/// DAC is on exactly when bits 7–3 are not all 0, and turning it off
/// silences the channel.
pub proof fn lemma_nr12_decode(c: Channel1, v: u8)
    ensures
        ({
            let d = c.written(0xFF12, v);
            &&& d.envelope.initial == v / 16
            &&& (d.envelope.dir == EnvDir::Increase) == ((v / 8) % 2 == 1)
            &&& d.envelope.period == v % 8
            &&& d.dac_on == (v >= 8)
            &&& (v < 8 ==> !d.enabled)
        }),
{
    lemma_nr12_bits(v);
}

} // verus!
