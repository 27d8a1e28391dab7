//! Channel 3 — arbitrary wave (PCM).
//!
//! Ch3 plays 4-bit samples from a 16-byte (32-nibble) wave RAM at
//! 0xFF30–0xFF3F at a rate set by the frequency register.  The DAC has a
//! dedicated switch (NR30 bit 7) instead of an envelope; the volume is a
//! 2-bit shift.
//!
//! | Address   | Name | Bits                                           |
//! |-----------|------|------------------------------------------------|
//! | FF1A      | NR30 | `D--- ----` DAC on/off                         |
//! | FF1B      | NR31 | `LLLL LLLL` length load (write-only)           |
//! | FF1C      | NR32 | `-LL- ----` output level (mute/100%/50%/25%)   |
//! | FF1D      | NR33 | `FFFF FFFF` freq bits 0–7 (write-only)         |
//! | FF1E      | NR34 | `TL-- -FFF` trigger / length-enable / freq 8–10|
//! | FF30–FF3F | —    | Wave RAM: 32 × 4-bit samples, high nibble first|
use vstd::prelude::*;
use crate::apu::units::LengthCounter;
use crate::apu::lemma_register_fields;
use crate::bytes::zeroed_bytes;

verus! {

broadcast use vstd::array::group_array_axioms;

#[derive(Debug, Clone, Copy)]
pub struct Channel3 {
    /// NR30 bit 7: powers the DAC.
    pub dac_on: bool,
    /// NR32 bits 5–6: 0 = mute, 1 = 100%, 2 = 50%, 3 = 25%.
    pub output_level: u8,
    pub length: LengthCounter,
    /// 11-bit frequency: NR33 = bits 0–7, NR34 = bits 8–10.
    pub freq: u16,
    /// 0xFF30–0xFF3F: 32 packed 4-bit samples.
    pub wave_ram: [u8; 16],
    pub enabled: bool,
    /// T-cycle countdown; reloads with (2048 − freq) × 2.
    pub freq_timer: u16,
    /// Nibble index 0–31 into wave RAM.
    pub phase: u8,
    /// While the channel plays, the CPU can reach wave RAM only during the
    /// 2 T-cycles after the channel fetched a sample, and then any address
    /// reaches the byte being played.  Set to 2 on each fetch.
    pub wave_access_timer: u8,
}

/// Wave RAM with the `n` bytes at `src` copied to the front (no overlap).
pub open spec fn wave_block_copied(ram: [u8; 16], src: int, n: nat) -> [u8; 16]
    decreases n,
{
    if n == 0 {
        ram
    } else {
        vstd::array::spec_array_update(wave_block_copied(ram, src, (n - 1) as nat), n - 1, ram[src + n - 1])
    }
}

impl Channel3 {
    pub open spec fn wf(self) -> bool {
        &&& self.output_level <= 3
        &&& self.freq <= 2047
        &&& self.phase <= 31
    }

    /// The byte of wave RAM being played.
    pub open spec fn playing_byte(self) -> int {
        (self.phase / 2) as int
    }

    pub open spec fn reg_value(self, address: u16) -> u8 {
        if address == 0xFF1A {
            if self.dac_on {
                0x80
            } else {
                0
            }
        } else if address == 0xFF1C {
            (self.output_level << 5) as u8
        } else if address == 0xFF1E {
            if self.length.enabled {
                0x40
            } else {
                0
            }
        } else if 0xFF30 <= address <= 0xFF3F {
            if self.enabled {
                if self.wave_access_timer > 0 {
                    self.wave_ram[self.playing_byte()]
                } else {
                    0xFF
                }
            } else {
                self.wave_ram[address - 0xFF30]
            }
        } else {
            0
        }
    }

    pub open spec fn triggered(self, frame_seq_step: u8) -> Channel3 {
        let was_zero = self.length.value == 0;
        let c = Channel3 {
            enabled: self.dac_on,
            length: if was_zero {
                LengthCounter { value: 256, ..self.length }
            } else {
                self.length
            },
            phase: 0,
            freq_timer: ((2048 - self.freq) * 2 + 6) as u16,
            ..self
        };
        if was_zero && c.length.enabled && frame_seq_step & 1 == 1 {
            Channel3 {
                length: c.length.clocked(),
                enabled: if c.length.expires() {
                    false
                } else {
                    c.enabled
                },
                ..c
            }
        } else {
            c
        }
    }

    pub open spec fn written(self, address: u16, value: u8, frame_seq_step: u8) -> Channel3 {
        if address == 0xFF1A {
            let dac_on = value & 0x80 != 0;
            Channel3 {
                dac_on,
                enabled: if dac_on {
                    self.enabled
                } else {
                    false
                },
                ..self
            }
        } else if address == 0xFF1B {
            Channel3 { length: LengthCounter { value: (256 - value) as u16, ..self.length }, ..self }
        } else if address == 0xFF1C {
            Channel3 { output_level: (value >> 5) & 0x03, ..self }
        } else if address == 0xFF1D {
            Channel3 { freq: (self.freq & 0x700) | (value as u16), ..self }
        } else if address == 0xFF1E {
            let was_enabled = self.length.enabled;
            let c = Channel3 {
                freq: (self.freq & 0x0FF) | (((value & 0x07) as u16) << 8),
                length: LengthCounter { enabled: value & 0x40 != 0, ..self.length },
                ..self
            };
            // Enabling the length counter during the first half of a length
            // period clocks it at once.
            let c = if !was_enabled && c.length.enabled && frame_seq_step & 1 == 1 {
                Channel3 {
                    length: c.length.clocked(),
                    enabled: if c.length.expires() {
                        false
                    } else {
                        c.enabled
                    },
                    ..c
                }
            } else {
                c
            };
            if value & 0x80 != 0 {
                c.triggered(frame_seq_step)
            } else {
                c
            }
        } else if 0xFF30 <= address <= 0xFF3F {
            if self.enabled {
                if self.wave_access_timer > 0 {
                    Channel3 {
                        wave_ram: vstd::array::spec_array_update(self.wave_ram, self.playing_byte(), value),
                        ..self
                    }
                } else {
                    self
                }
            } else {
                Channel3 {
                    wave_ram: vstd::array::spec_array_update(self.wave_ram, address - 0xFF30, value),
                    ..self
                }
            }
        } else {
            self
        }
    }

    pub open spec fn trigger_corrupted(self) -> Channel3 {
        if !self.enabled {
            self
        } else if self.playing_byte() < 4 {
            Channel3 {
                wave_ram: vstd::array::spec_array_update(self.wave_ram, 0, self.wave_ram[self.playing_byte()]),
                ..self
            }
        } else {
            Channel3 {
                wave_ram: wave_block_copied(self.wave_ram, self.playing_byte() / 4 * 4, 4),
                ..self
            }
        }
    }

    pub open spec fn timer_ticked(self) -> Channel3 {
        let access = if self.wave_access_timer > 0 {
            (self.wave_access_timer - 1) as u8
        } else {
            0
        };
        let t = if self.freq_timer > 0 {
            (self.freq_timer - 1) as u16
        } else {
            0
        };
        if t == 0 {
            Channel3 {
                wave_access_timer: 2,
                freq_timer: ((2048 - self.freq) * 2) as u16,
                phase: ((self.phase + 1) as u8) & 31,
                ..self
            }
        } else {
            Channel3 { wave_access_timer: access, freq_timer: t, ..self }
        }
    }

    /// The 4-bit sample at the wave position (high nibble first).
    pub open spec fn sample_at_phase(self) -> u8 {
        let byte = self.wave_ram[self.playing_byte()];
        if self.phase % 2 == 0 {
            byte / 16
        } else {
            byte % 16
        }
    }

    /// The channel after one length clock: it stops when the counter runs out.
    pub open spec fn length_clocked(self) -> Channel3 {
        Channel3 {
            length: self.length.clocked(),
            enabled: if self.length.expires() {
                false
            } else {
                self.enabled
            },
            ..self
        }
    }

    /// One length clock (256 Hz).
    pub fn clock_length(&mut self)
        ensures
            *final(self) == old(self).length_clocked(),
    {
        if self.length.clock() {
            self.enabled = false;
        }
    }

    pub fn new() -> (c: Channel3)
        ensures
            c.wf(),
            !c.dac_on,
            !c.enabled,
            c.output_level == 0,
            c.length == LengthCounter::zero(),
            c.freq == 0,
            c.freq_timer == 0,
            c.phase == 0,
            c.wave_access_timer == 0,
            forall|i: int| 0 <= i < 16 ==> c.wave_ram[i] == 0,
    {
        let wave_ram = zeroed_bytes::<16>();
        Channel3 {
            dac_on: false,
            output_level: 0,
            length: LengthCounter::new(),
            freq: 0,
            wave_ram,
            enabled: false,
            freq_timer: 0,
            phase: 0,
            wave_access_timer: 0,
        }
    }

    pub fn read(&self, address: u16) -> (v: u8)
        requires
            self.wf(),
        ensures
            v == self.reg_value(address),
    {
        match address {
            0xFF1A => {
                if self.dac_on {
                    0x80
                } else {
                    0
                }
            },
            0xFF1B => 0,  // write-only
            0xFF1C => self.output_level << 5,
            0xFF1D => 0,  // write-only
            0xFF1E => {
                if self.length.enabled {
                    0x40
                } else {
                    0
                }
            },
            0xFF30..=0xFF3F => {
                if self.enabled {
                    if self.wave_access_timer > 0 {
                        self.wave_ram[(self.phase / 2) as usize]
                    } else {
                        0xFF
                    }
                } else {
                    self.wave_ram[(address - 0xFF30) as usize]
                }
            },
            _ => 0,
        }
    }

    pub fn write(&mut self, address: u16, value: u8, frame_seq_step: u8)
        requires
            old(self).wf(),
        ensures
            *final(self) == old(self).written(address, value, frame_seq_step),
            final(self).wf(),
    {
        proof {
            lemma_register_fields(value, self.freq);
        }
        match address {
            0xFF1A => {
                self.dac_on = value & 0x80 != 0;
                if !self.dac_on {
                    self.enabled = false;
                }
            },
            0xFF1B => {
                self.length.value = 256 - value as u16;
            },
            0xFF1C => {
                self.output_level = (value >> 5) & 0x03;
            },
            0xFF1D => {
                self.freq = (self.freq & 0x700) | value as u16;
            },
            0xFF1E => {
                self.freq = (self.freq & 0x0FF) | (((value & 0x07) as u16) << 8);
                let was_enabled = self.length.enabled;
                self.length.enabled = value & 0x40 != 0;
                if !was_enabled && self.length.enabled && frame_seq_step & 1 == 1
                    && self.length.clock() {
                    self.enabled = false;
                }
                if value & 0x80 != 0 {
                    self.trigger(frame_seq_step);
                }
            },
            0xFF30..=0xFF3F => {
                if self.enabled {
                    // While playing, any address reaches the byte being
                    // played, and only inside the access window.
                    if self.wave_access_timer > 0 {
                        self.wave_ram[(self.phase / 2) as usize] = value;
                    }
                } else {
                    self.wave_ram[(address - 0xFF30) as usize] = value;
                }
            },
            _ => {},
        }
    }

    /// DMG wave RAM corruption when Ch3 is triggered while playing: if the
    /// wave position is in the first 4 bytes, the byte being read is copied
    /// to byte 0; otherwise the aligned 4-byte block holding it is copied
    /// over bytes 0–3.  The APU calls this before routing the trigger write.
    pub fn apply_dmg_trigger_corruption(&mut self)
        requires
            old(self).wf(),
        ensures
            *final(self) == old(self).trigger_corrupted(),
            final(self).wf(),
    {
        if !self.enabled {
            return;
        }
        let byte_pos = (self.phase / 2) as usize;
        if byte_pos < 4 {
            self.wave_ram[0] = self.wave_ram[byte_pos];
        } else {
            let block_start = byte_pos / 4 * 4;
            let ghost ram = self.wave_ram;
            let mut k: usize = 0;
            while k < 4
                invariant
                    4 <= block_start <= 12,
                    k <= 4,
                    self.wave_ram == wave_block_copied(ram, block_start as int, k as nat),
                    *self == (Channel3 { wave_ram: self.wave_ram, ..*old(self) }),
                    ram == old(self).wave_ram,
                decreases 4 - k,
            {
                proof {
                    lemma_block_source_intact(ram, block_start as int, k as nat);
                }
                let v = self.wave_ram[block_start + k];
                self.wave_ram[k] = v;
                k = k + 1;
            }
        }
    }

    /// Clock the frequency timer by one T-cycle.  Ch3 steps twice as often
    /// as Ch1/Ch2 for the same frequency, through 32 nibbles.
    pub fn tick_timer(&mut self)
        requires
            old(self).wf(),
        ensures
            *final(self) == old(self).timer_ticked(),
            final(self).wf(),
    {
        proof {
            lemma_register_fields((self.phase + 1) as u8, self.freq);
        }
        // The access window closes by itself after 2 T-cycles.
        if self.wave_access_timer > 0 {
            self.wave_access_timer = self.wave_access_timer - 1;
        }
        if self.freq_timer > 0 {
            self.freq_timer = self.freq_timer - 1;
        }
        if self.freq_timer == 0 {
            self.freq_timer = (2048 - self.freq) * 2;
            self.phase = (self.phase + 1) & 31;
            self.wave_access_timer = 2;
        }
    }

    /// The current 4-bit PCM sample at the wave position.  Wave RAM holds
    /// 32 nibbles packed two per byte, high nibble first.
    pub fn current_sample(&self) -> (s: u8)
        requires
            self.wf(),
        ensures
            s == self.sample_at_phase(),
            s <= 15,
    {
        let byte = self.wave_ram[(self.phase / 2) as usize];
        if self.phase % 2 == 0 {
            byte / 16
        } else {
            byte % 16
        }
    }

    fn trigger(&mut self, frame_seq_step: u8)
        requires
            old(self).wf(),
        ensures
            *final(self) == old(self).triggered(frame_seq_step),
            final(self).wf(),
    {
        self.enabled = self.dac_on;
        let length_was_zero = self.length.value == 0;
        if length_was_zero {
            self.length.value = 256;
        }
        // The position resets to 0 (the sample buffer is not refilled) and
        // the timer reloads with a 6 T-cycle startup delay.
        self.phase = 0;
        self.freq_timer = (2048 - self.freq) * 2 + 6;
        if length_was_zero && self.length.enabled && frame_seq_step & 1 == 1
            && self.length.clock() {
            self.enabled = false;
        }
    }
}

/// While copying the block to the front, the block itself is untouched.
proof fn lemma_block_source_intact(ram: [u8; 16], src: int, n: nat)
    requires
        4 <= src <= 12,
        n <= 4,
    ensures
        forall|i: int| src <= i < src + 4 ==> wave_block_copied(ram, src, n)[i] == ram[i],
    decreases n,
{
    if n > 0 {
        lemma_block_source_intact(ram, src, (n - 1) as nat);
    }
}

impl Default for Channel3 {
    fn default() -> (c: Self)
        ensures
            c.wf(),
            !c.enabled,
            !c.dac_on,
    {
        Channel3::new()
    }
}

} // verus!
