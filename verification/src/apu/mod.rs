//! Audio Processing Unit (APU).
//!
//! The DMG APU contains four sound channels mixed into a stereo output:
//!
//! | Ch | Type          | Notes                                    |
//! |----|---------------|------------------------------------------|
//! |  1 | Pulse + sweep | frequency sweep, duty cycle, envelope    |
//! |  2 | Pulse         | duty cycle and envelope, no sweep        |
//! |  3 | Wave          | 4-bit PCM from programmable wave RAM     |
//! |  4 | Noise         | LFSR-based pseudo-random noise           |
//!
//! ## Frame sequencer
//!
//! A 512 Hz clock (a falling edge of system counter bit 12, every 8,192
//! T-cycles) drives a modulo-8 step counter that gates the slower units:
//!
//! | Step | Length (256 Hz) | Envelope (64 Hz) | Sweep (128 Hz) |
//! |------|-----------------|------------------|----------------|
//! |  0   | ✓               |                  |                |
//! |  2   | ✓               |                  | ✓              |
//! |  4   | ✓               |                  |                |
//! |  6   | ✓               |                  | ✓              |
//! |  7   |                 | ✓                |                |
//!
//! ## Output
//!
//! A stereo sample is produced 44,100 times per emulated second.  Each
//! channel's DAC maps its amplitude `a` (0–15) to `(2a − 15) / 15` (0 when
//! the channel or its DAC is off); NR51 routes channels to each side and
//! NR50 scales each side by `(volume + 1) / 8`, and the sum is divided by 4.
//! Samples are queued as integer levels `L` standing for `L / 480`, exactly.
use vstd::prelude::*;

pub mod channel1;
pub mod channel2;
pub mod channel3;
pub mod channel4;
pub mod units;

use crate::apu::channel1::Channel1;
use crate::apu::channel2::Channel2;
use crate::apu::channel3::Channel3;
use crate::apu::channel4::Channel4;
use crate::apu::units::LengthCounter;
use crate::log::{append_log, lemma_log_push, log_pushed, ChunkLog};

verus! {

broadcast use vstd::array::group_array_axioms;

/// Bits that always read back as 1, indexed by `address − 0xFF10` for
/// 0xFF10–0xFF26: write-only fields (frequency, trigger) and unused bits.
pub const OR_MASK: [u8; 23] = [
    0x80, 0x3F, 0x00, 0xFF, 0xBF,  // FF10–FF14
    0xFF, 0x3F, 0x00, 0xFF, 0xBF,  // FF15–FF19
    0x7F, 0xFF, 0x9F, 0xFF, 0xBF,  // FF1A–FF1E
    0xFF, 0xFF, 0x00, 0x00, 0xBF,  // FF1F–FF23
    0x00, 0x00, 0x70,  // FF24–FF26
];

/// Pulse duty-cycle waveforms, one bit per phase step (bit N = phase N high):
/// 12.5 % (phase 7), 25 % (phases 0 and 7), 50 % (phases 0 and 5–7) and
/// 75 % (phases 1–6).
pub const DUTY_PATTERNS: [u8; 4] = [0x80, 0x81, 0xE1, 0x7E];

/// DMG APU master clock rate (T-cycles per second).
pub const APU_CLOCK_HZ: u32 = 4194304;

/// Audio output sample rate (Hz).
pub const SAMPLE_RATE: u32 = 44100;

/// The queued levels stand for `level / LEVEL_SCALE` in −1.0..=+1.0.
pub const LEVEL_SCALE: i16 = 480;

/// System counter bit 12: the frame sequencer fires on each falling edge.
/// It is also DIV bit 4, so a DIV write can clock the frame sequencer.
pub const FRAME_SEQ_BIT: u16 = 0x1000;

pub(crate) proof fn lemma_register_fields(v: u8, f: u16)
    by (bit_vector)
    ensures
        (v >> 4) & 0x07 <= 7,
        v & 0x07 <= 7,
        (v >> 6) & 0x03 <= 3,
        (v >> 4) & 0x0F <= 15,
        (v >> 5) & 0x03 <= 3,
        v & 0x3F <= 63,
        v & 31 <= 31,
        (f & 0x700) | (v as u16) <= 0x7FF,
        (f & 0x0FF) | (((v & 0x07) as u16) << 8) <= 0x7FF,
{
}

/// Output level of a channel: `2a − 15` for DAC amplitude `a`, 0 when off.
pub open spec fn channel_level(on: bool, amplitude: u8) -> int {
    if on {
        2 * amplitude - 15
    } else {
        0
    }
}

/// Whether phase `phase` of duty pattern `duty` is high (0 or 1).
pub open spec fn duty_high(duty: u8, phase: u8) -> u8 {
    (DUTY_PATTERNS@[duty as int] >> phase) & 1
}

/// Channel 3 volume shift for NR32's output level (mute, 100 %, 50 %, 25 %).
pub open spec fn wave_shift(output_level: u8) -> u8 {
    if output_level == 0 {
        4
    } else {
        (output_level - 1) as u8
    }
}

pub struct APU {
    ch1: Channel1,
    ch2: Channel2,
    ch3: Channel3,
    ch4: Channel4,
    /// NR50: left volume in bits 6–4, right volume in bits 2–0 (VIN routing
    /// in bits 7 and 3 is not emulated).
    nr50: u8,
    /// NR51: bit N+4 routes channel N+1 to the left, bit N to the right.
    nr51: u8,
    /// NR52 bit 7: master power.
    on: bool,
    /// Current frame-sequencer step (0–7).
    frame_seq_step: u8,
    /// Sample clock in units of 1/44,100 T-cycle: grows by 44,100 each
    /// T-cycle, and a sample is due each time it reaches 4,194,304.
    sample_clock: u32,
    /// Queued levels, interleaved left/right.
    samples: ChunkLog<i16>,
    /// How many levels are queued.
    sample_count: usize,
}

impl APU {
    pub closed spec fn wf(self) -> bool {
        &&& self.ch1.wf()
        &&& self.ch2.wf()
        &&& self.ch3.wf()
        &&& self.ch4.wf()
        &&& self.frame_seq_step <= 7
        &&& self.sample_clock < APU_CLOCK_HZ
        &&& self.samples.wf()
        &&& self.sample_count == self.samples.contents().len()
    }

    pub closed spec fn powered(self) -> bool {
        self.on
    }

    pub closed spec fn sequencer_step(self) -> u8 {
        self.frame_seq_step
    }

    /// The state at power-on with the frame sequencer at `step`: every
    /// channel cleared (wave RAM zeroed), NR50 and NR51 zero, master power
    /// off, the sample clock at zero and nothing queued.
    pub closed spec fn at_power_on(self, step: u8) -> bool {
        &&& self.ch1 == Channel1::zero()
        &&& self.ch2 == Channel2::zero()
        &&& self.ch4 == Channel4::zero()
        &&& !self.ch3.dac_on
        &&& !self.ch3.enabled
        &&& self.ch3.output_level == 0
        &&& self.ch3.length == LengthCounter::zero()
        &&& self.ch3.freq == 0
        &&& self.ch3.freq_timer == 0
        &&& self.ch3.phase == 0
        &&& self.ch3.wave_access_timer == 0
        &&& forall|i: int| 0 <= i < 16 ==> self.ch3.wave_ram[i] == 0
        &&& self.nr50 == 0
        &&& self.nr51 == 0
        &&& !self.on
        &&& self.frame_seq_step == step
        &&& self.sample_clock == 0
        &&& self.sample_count == 0
        &&& self.samples is Empty
    }

    /// The APU with its sample queue emptied.
    pub closed spec fn drained(self) -> APU {
        APU { samples: ChunkLog::Empty, sample_count: 0, ..self }
    }

    /// The queued levels, oldest first.
    pub closed spec fn queued(self) -> Seq<i16> {
        self.samples.contents()
    }

    // --- Output ---

    pub closed spec fn ch1_level(self) -> int {
        channel_level(
            self.ch1.enabled && self.ch1.dac_on,
            (duty_high(self.ch1.duty, self.ch1.phase) * self.ch1.envelope.volume) as u8,
        )
    }

    pub closed spec fn ch2_level(self) -> int {
        channel_level(
            self.ch2.enabled && self.ch2.dac_on,
            (duty_high(self.ch2.duty, self.ch2.phase) * self.ch2.envelope.volume) as u8,
        )
    }

    pub closed spec fn ch3_level(self) -> int {
        channel_level(
            self.ch3.enabled && self.ch3.dac_on,
            self.ch3.sample_at_phase() >> wave_shift(self.ch3.output_level),
        )
    }

    pub closed spec fn ch4_level(self) -> int {
        channel_level(
            self.ch4.enabled && self.ch4.dac_on,
            (((self.ch4.lfsr & 1) ^ 1) * self.ch4.envelope.volume) as u8,
        )
    }

    /// Sum of the levels NR51 routes to the left (`left`) or right side:
    /// bits 7–4 (left) or 3–0 (right) select Ch4, Ch3, Ch2, Ch1.
    pub closed spec fn routed_sum(self, left: bool) -> int {
        let routing: u8 = if left { self.nr51 >> 4 } else { self.nr51 };
        (if routing & 8 != 0 { self.ch4_level() } else { 0 })
        + (if routing & 4 != 0 { self.ch3_level() } else { 0 })
        + (if routing & 2 != 0 { self.ch2_level() } else { 0 })
        + (if routing & 1 != 0 { self.ch1_level() } else { 0 })
    }

    /// The left and right levels of the next sample.
    pub closed spec fn left_level(self) -> int {
        self.routed_sum(true) * (((self.nr50 >> 4) & 0x07) + 1)
    }

    pub closed spec fn right_level(self) -> int {
        self.routed_sum(false) * ((self.nr50 & 0x07) + 1)
    }

    pub closed spec fn level_pushed(self, level: int) -> APU {
        if self.sample_count < usize::MAX {
            APU {
                samples: self.samples.pushed(level as i16),
                sample_count: (self.sample_count + 1) as usize,
                ..self
            }
        } else {
            self
        }
    }

    pub closed spec fn sample_pushed(self) -> APU {
        self.level_pushed(self.left_level()).level_pushed(self.right_level())
    }

    // --- Clocking ---

    /// One T-cycle with the APU on: channel timers, then the sample clock.
    pub closed spec fn t_ticked(self) -> APU {
        let a = APU {
            ch1: self.ch1.timer_ticked(),
            ch2: self.ch2.timer_ticked(),
            ch3: self.ch3.timer_ticked(),
            ch4: self.ch4.timer_ticked(),
            ..self
        };
        let clock = a.sample_clock + SAMPLE_RATE;
        if clock >= APU_CLOCK_HZ {
            APU { sample_clock: (clock - APU_CLOCK_HZ) as u32, ..a }.sample_pushed()
        } else {
            APU { sample_clock: clock as u32, ..a }
        }
    }

    pub closed spec fn lengths_clocked(self) -> APU {
        APU {
            ch1: self.ch1.length_clocked(),
            ch2: self.ch2.length_clocked(),
            ch3: self.ch3.length_clocked(),
            ch4: self.ch4.length_clocked(),
            ..self
        }
    }

    pub closed spec fn envelopes_clocked(self) -> APU {
        APU {
            ch1: Channel1 { envelope: self.ch1.envelope.clocked(), ..self.ch1 },
            ch2: Channel2 { envelope: self.ch2.envelope.clocked(), ..self.ch2 },
            ch4: Channel4 { envelope: self.ch4.envelope.clocked(), ..self.ch4 },
            ..self
        }
    }

    /// One frame-sequencer tick: the units of the current step (only while
    /// powered on), then the step advances (always).
    pub closed spec fn frame_clocked(self) -> APU {
        let step = self.frame_seq_step;
        let a = if self.on {
            let a1 = if step % 2 == 0 { self.lengths_clocked() } else { self };
            let a2 = if step == 2 || step == 6 {
                APU { ch1: a1.ch1.sweep_clocked(), ..a1 }
            } else {
                a1
            };
            if step == 7 { a2.envelopes_clocked() } else { a2 }
        } else {
            self
        };
        APU { frame_seq_step: ((step + 1) % 8) as u8, ..a }
    }

    /// One machine cycle starting at system counter `counter`.
    pub closed spec fn m_cycle(self, counter: u16) -> APU {
        let next = counter.wrapping_add(4);
        let a = if counter & FRAME_SEQ_BIT != 0 && next & FRAME_SEQ_BIT == 0 {
            self.frame_clocked()
        } else {
            self
        };
        if a.on {
            a.t_ticked().t_ticked().t_ticked().t_ticked()
        } else {
            a
        }
    }

    /// `n` machine cycles starting at system counter `counter`.
    pub closed spec fn m_cycles(self, counter: u16, n: nat) -> APU
        decreases n,
    {
        if n == 0 {
            self
        } else {
            self.m_cycle(counter).m_cycles(counter.wrapping_add(4), (n - 1) as nat)
        }
    }

    /// After a DIV reset from `old_counter`: a set bit 12 falls and clocks
    /// the frame sequencer.
    pub closed spec fn div_reset_seen(self, old_counter: u16) -> APU {
        if old_counter & FRAME_SEQ_BIT != 0 {
            self.frame_clocked()
        } else {
            self
        }
    }

    // --- Registers ---

    pub closed spec fn or_mask_of(address: u16) -> u8 {
        if 0xFF10 <= address <= 0xFF26 {
            OR_MASK@[address - 0xFF10]
        } else {
            0xFF
        }
    }

    /// NR52: power in bit 7, channel status in bits 3–0, unused bits 1.
    pub closed spec fn nr52_value(self) -> u8 {
        ((if self.on { 0x80u8 } else { 0u8 }) | (if self.ch4.enabled { 8u8 } else { 0u8 })
            | (if self.ch3.enabled { 4u8 } else { 0u8 }) | (if self.ch2.enabled { 2u8 } else { 0u8 })
            | (if self.ch1.enabled { 1u8 } else { 0u8 }) | 0x70u8) as u8
    }

    /// The value a read of `address` returns.  Registers read back through
    /// their OR masks, also while the APU is off; wave RAM is always
    /// readable; anything else reads 0xFF.
    pub closed spec fn reg_read(self, address: u16) -> u8 {
        if 0xFF30 <= address <= 0xFF3F {
            self.ch3.reg_value(address)
        } else if address == 0xFF26 {
            self.nr52_value()
        } else if 0xFF10 <= address <= 0xFF14 {
            self.ch1.reg_value(address) | APU::or_mask_of(address)
        } else if 0xFF15 <= address <= 0xFF19 {
            self.ch2.reg_value(address) | APU::or_mask_of(address)
        } else if 0xFF1A <= address <= 0xFF1E {
            self.ch3.reg_value(address) | APU::or_mask_of(address)
        } else if 0xFF1F <= address <= 0xFF23 {
            self.ch4.reg_value(address) | APU::or_mask_of(address)
        } else if address == 0xFF24 {
            self.nr50
        } else if address == 0xFF25 {
            self.nr51
        } else {
            0xFF
        }
    }

    /// All channel and control registers cleared; length counter values and
    /// wave RAM survive (DMG).
    pub closed spec fn powered_off(self) -> APU {
        APU {
            ch1: Channel1 {
                length: LengthCounter { value: self.ch1.length.value, ..LengthCounter::zero() },
                ..Channel1::zero()
            },
            ch2: Channel2 {
                length: LengthCounter { value: self.ch2.length.value, ..LengthCounter::zero() },
                ..Channel2::zero()
            },
            ch3: Channel3 {
                dac_on: false,
                output_level: 0,
                length: LengthCounter { value: self.ch3.length.value, ..LengthCounter::zero() },
                freq: 0,
                wave_ram: self.ch3.wave_ram,
                enabled: false,
                freq_timer: 0,
                phase: 0,
                wave_access_timer: 0,
            },
            ch4: Channel4 {
                length: LengthCounter { value: self.ch4.length.value, ..LengthCounter::zero() },
                ..Channel4::zero()
            },
            nr50: 0,
            nr51: 0,
            ..self
        }
    }

    /// The APU after a write of `value` to `address`.
    pub closed spec fn reg_written(self, address: u16, value: u8) -> APU {
        if 0xFF30 <= address <= 0xFF3F {
            APU { ch3: self.ch3.written(address, value, 0), ..self }
        } else if address == 0xFF26 {
            let on = value & 0x80 != 0;
            let a = APU { on, ..self };
            if self.on && !on {
                a.powered_off()
            } else if !self.on && on {
                APU { frame_seq_step: 0, ..a }
            } else {
                a
            }
        } else if !self.on {
            // While off, only the length loads (NRx1) are writable.
            if address == 0xFF11 {
                APU { ch1: Channel1 { length: LengthCounter { value: (64 - (value & 0x3F)) as u16, ..self.ch1.length }, ..self.ch1 }, ..self }
            } else if address == 0xFF16 {
                APU { ch2: Channel2 { length: LengthCounter { value: (64 - (value & 0x3F)) as u16, ..self.ch2.length }, ..self.ch2 }, ..self }
            } else if address == 0xFF1B {
                APU { ch3: Channel3 { length: LengthCounter { value: (256 - value) as u16, ..self.ch3.length }, ..self.ch3 }, ..self }
            } else if address == 0xFF20 {
                APU { ch4: Channel4 { length: LengthCounter { value: (64 - (value & 0x3F)) as u16, ..self.ch4.length }, ..self.ch4 }, ..self }
            } else {
                self
            }
        } else if 0xFF10 <= address <= 0xFF14 {
            APU { ch1: self.ch1.written(address, value), ..self }
        } else if 0xFF15 <= address <= 0xFF19 {
            APU { ch2: self.ch2.written(address, value, self.frame_seq_step), ..self }
        } else if 0xFF1A <= address <= 0xFF1E {
            let c3 = if address == 0xFF1E && value & 0x80 != 0 {
                self.ch3.trigger_corrupted()
            } else {
                self.ch3
            };
            APU { ch3: c3.written(address, value, self.frame_seq_step), ..self }
        } else if 0xFF1F <= address <= 0xFF23 {
            APU { ch4: self.ch4.written(address, value, self.frame_seq_step), ..self }
        } else if address == 0xFF24 {
            APU { nr50: value, ..self }
        } else if address == 0xFF25 {
            APU { nr51: value, ..self }
        } else {
            self
        }
    }
}

impl APU {
    /// The APU as the boot ROM leaves it at PC = 0x0100.  From system
    /// counter 0 to 0xABD0 bit 12 falls five times (at 0x2000, 0x4000,
    /// 0x6000, 0x8000 and 0xA000), so the frame sequencer is at step 5.
    pub fn post_boot() -> (a: APU)
        ensures
            a.wf(),
            !a.powered(),
            a.sequencer_step() == 5,
            a.queued() == Seq::<i16>::empty(),
            a.at_power_on(5),
    {
        let mut a = APU::cold_start();
        a.frame_seq_step = 5;
        a
    }

    /// The power-on APU, for running a boot ROM: the frame sequencer has
    /// not been clocked yet.
    pub fn cold_start() -> (a: APU)
        ensures
            a.wf(),
            !a.powered(),
            a.sequencer_step() == 0,
            a.queued() == Seq::<i16>::empty(),
            a.at_power_on(0),
    {
        let a = APU {
            ch1: Channel1::new(),
            ch2: Channel2::new(),
            ch3: Channel3::new(),
            ch4: Channel4::new(),
            nr50: 0,
            nr51: 0,
            on: false,
            frame_seq_step: 0,
            sample_clock: 0,
            samples: ChunkLog::Empty,
            sample_count: 0,
        };
        assert(a.queued() =~= Seq::<i16>::empty());
        a
    }

    /// Advance the APU by `cycles` T-cycles, one machine cycle at a time.
    ///
    /// `prev_counter` is the system counter at the start of the step (read
    /// from the timer before it advances); a falling edge of its bit 12
    /// clocks the frame sequencer, which runs even while the APU is off so
    /// that its phase stays right.  Channel timers and sample output run only
    /// while the APU is on.
    pub fn step(&mut self, cycles: u16, prev_counter: u16)
        requires
            old(self).wf(),
        ensures
            final(self).wf(),
            *final(self) == old(self).m_cycles(prev_counter, (cycles / 4) as nat),
    {
        let mut counter = prev_counter;
        let n = cycles / 4;
        let mut i: u16 = 0;
        let ghost start = *self;
        while i < n
            invariant
                i <= n,
                self.wf(),
                start.m_cycles(prev_counter, n as nat) == self.m_cycles(counter, (n - i) as nat),
            decreases n - i,
        {
            let next_counter = counter.wrapping_add(4);
            if counter & FRAME_SEQ_BIT != 0 && next_counter & FRAME_SEQ_BIT == 0 {
                self.clock_frame_sequencer();
            }
            counter = next_counter;
            if self.on {
                self.tick_t();
                self.tick_t();
                self.tick_t();
                self.tick_t();
            }
            i = i + 1;
        }
    }

    /// A DIV write resets the system counter: if bit 12 was set it falls,
    /// and the frame sequencer fires at once (whatever the power state).
    pub fn notify_div_reset(&mut self, old_counter: u16)
        requires
            old(self).wf(),
        ensures
            final(self).wf(),
            *final(self) == old(self).div_reset_seen(old_counter),
    {
        if old_counter & FRAME_SEQ_BIT != 0 {
            self.clock_frame_sequencer();
        }
    }

    /// Return and clear the queued levels (interleaved left, right; each
    /// stands for `level / 480` in −1.0..=+1.0).
    pub fn drain_samples(&mut self) -> (levels: Vec<i16>)
        requires
            old(self).wf(),
        ensures
            final(self).wf(),
            levels@ == old(self).queued(),
            final(self).queued() == Seq::<i16>::empty(),
            *final(self) == old(self).drained(),
    {
        let mut levels: Vec<i16> = Vec::new();
        append_log(&self.samples, &mut levels);
        self.samples = ChunkLog::Empty;
        self.sample_count = 0;
        assert(levels@ =~= old(self).queued());
        assert(self.queued() =~= Seq::<i16>::empty());
        levels
    }

    /// One T-cycle: clock the channel timers and advance sample output.
    fn tick_t(&mut self)
        requires
            old(self).wf(),
        ensures
            final(self).wf(),
            *final(self) == old(self).t_ticked(),
    {
        self.ch1.tick_timer();
        self.ch2.tick_timer();
        self.ch3.tick_timer();
        self.ch4.tick_timer();
        let clock = self.sample_clock + SAMPLE_RATE;
        if clock >= APU_CLOCK_HZ {
            self.sample_clock = clock - APU_CLOCK_HZ;
            self.push_sample();
        } else {
            self.sample_clock = clock;
        }
    }

    fn clock_frame_sequencer(&mut self)
        requires
            old(self).wf(),
        ensures
            final(self).wf(),
            *final(self) == old(self).frame_clocked(),
    {
        if self.on {
            // Length counters: steps 0, 2, 4, 6.
            if self.frame_seq_step % 2 == 0 {
                self.clock_length_counters();
            }
            // Frequency sweep: steps 2 and 6.
            if self.frame_seq_step == 2 || self.frame_seq_step == 6 {
                self.ch1.clock_sweep();
            }
            // Volume envelopes: step 7.
            if self.frame_seq_step == 7 {
                self.clock_volume_envelopes();
            }
        }
        self.frame_seq_step = (self.frame_seq_step + 1) % 8;
    }

    fn clock_length_counters(&mut self)
        requires
            old(self).wf(),
        ensures
            final(self).wf(),
            *final(self) == old(self).lengths_clocked(),
    {
        self.ch1.clock_length();
        self.ch2.clock_length();
        self.ch3.clock_length();
        self.ch4.clock_length();
    }

    fn clock_volume_envelopes(&mut self)
        requires
            old(self).wf(),
        ensures
            final(self).wf(),
            *final(self) == old(self).envelopes_clocked(),
    {
        self.ch1.envelope.clock();
        self.ch2.envelope.clock();
        self.ch4.envelope.clock();
        // Channel 3 has no envelope; NR32 sets its level.
    }

    fn push_level(&mut self, level: i16)
        requires
            old(self).wf(),
        ensures
            final(self).wf(),
            *final(self) == old(self).level_pushed(level as int),
    {
        if self.sample_count < usize::MAX {
            let mut log = ChunkLog::Empty;
            std::mem::swap(&mut log, &mut self.samples);
            proof {
                lemma_log_push(log, level);
            }
            self.samples = log_pushed(log, level);
            self.sample_count = self.sample_count + 1;
        }
    }

    /// Mix the four channels into one stereo sample and queue it.
    fn push_sample(&mut self)
        requires
            old(self).wf(),
        ensures
            final(self).wf(),
            *final(self) == old(self).sample_pushed(),
    {
        let ch1 = self.ch1_dac_output();
        let ch2 = self.ch2_dac_output();
        let ch3 = self.ch3_dac_output();
        let ch4 = self.ch4_dac_output();
        // NR50: the hardware adds 1 before scaling, so 0 → 1/8 and 7 → 8/8.
        let left_vol = ((self.nr50 >> 4) & 0x07) as i16 + 1;
        let right_vol = (self.nr50 & 0x07) as i16 + 1;
        // NR51: bits 7–4 route Ch4–Ch1 to the left, bits 3–0 to the right.
        let left = routed(self.nr51 >> 4, ch1, ch2, ch3, ch4);
        let right = routed(self.nr51, ch1, ch2, ch3, ch4);
        proof {
            lemma_level_bits(0, 0, 0, 0, 0, self.nr50);
            lemma_levels_bounded(*self);
        }
        let left_level = left * left_vol;
        let right_level = right * right_vol;
        self.push_level(left_level);
        self.push_level(right_level);
    }

    // DAC conversion: amplitude 0–15 → level 2a − 15 (for (2a − 15) / 15 in
    // −1.0..=+1.0); a channel or DAC that is off outputs 0 (DC centre).
    fn ch1_dac_output(&self) -> (level: i16)
        requires
            self.wf(),
        ensures
            level == self.ch1_level(),
            -15 <= level <= 15,
    {
        if !self.ch1.enabled || !self.ch1.dac_on {
            return 0;
        }
        let high = (DUTY_PATTERNS[self.ch1.duty as usize] >> self.ch1.phase) & 1;
        proof {
            lemma_level_bits(DUTY_PATTERNS@[self.ch1.duty as int], self.ch1.phase, 0, 0, 0, 0);
            lemma_amplitude(high, self.ch1.envelope.volume);
        }
        dac_level(high * self.ch1.envelope.volume)
    }

    fn ch2_dac_output(&self) -> (level: i16)
        requires
            self.wf(),
        ensures
            level == self.ch2_level(),
            -15 <= level <= 15,
    {
        if !self.ch2.enabled || !self.ch2.dac_on {
            return 0;
        }
        let high = (DUTY_PATTERNS[self.ch2.duty as usize] >> self.ch2.phase) & 1;
        proof {
            lemma_level_bits(DUTY_PATTERNS@[self.ch2.duty as int], self.ch2.phase, 0, 0, 0, 0);
            lemma_amplitude(high, self.ch2.envelope.volume);
        }
        dac_level(high * self.ch2.envelope.volume)
    }

    fn ch3_dac_output(&self) -> (level: i16)
        requires
            self.wf(),
        ensures
            level == self.ch3_level(),
            -15 <= level <= 15,
    {
        if !self.ch3.enabled || !self.ch3.dac_on {
            return 0;
        }
        // Output level 0 = mute (shift 4), 1 = 100 % (0), 2 = 50 % (1), 3 = 25 % (2).
        let shift: u8 = if self.ch3.output_level == 0 {
            4
        } else {
            self.ch3.output_level - 1
        };
        let sample = self.ch3.current_sample();
        proof {
            lemma_level_bits(0, 0, sample, shift, 0, 0);
        }
        dac_level(sample >> shift)
    }

    fn ch4_dac_output(&self) -> (level: i16)
        requires
            self.wf(),
        ensures
            level == self.ch4_level(),
            -15 <= level <= 15,
    {
        if !self.ch4.enabled || !self.ch4.dac_on {
            return 0;
        }
        // LFSR bit 0 inverted: 0 → high (volume), 1 → low (silence).
        let high = (self.ch4.lfsr & 1) ^ 1;
        proof {
            lemma_level_bits(0, 0, 0, 0, self.ch4.lfsr, 0);
            lemma_amplitude(high as u8, self.ch4.envelope.volume);
        }
        dac_level(high as u8 * self.ch4.envelope.volume)
    }

    fn or_mask(address: u16) -> (mask: u8)
        ensures
            mask == APU::or_mask_of(address),
    {
        if 0xFF10 <= address && address <= 0xFF26 {
            OR_MASK[(address - 0xFF10) as usize]
        } else {
            0xFF
        }
    }

    /// Clear all channel and control registers (NR52 bit 7 → 0).  On DMG
    /// the length counters and wave RAM survive.
    fn power_off(&mut self)
        requires
            old(self).wf(),
        ensures
            final(self).wf(),
            *final(self) == old(self).powered_off(),
    {
        let lengths = [
            self.ch1.length.value,
            self.ch2.length.value,
            self.ch3.length.value,
            self.ch4.length.value,
        ];
        let wave_ram = self.ch3.wave_ram;
        self.ch1 = Channel1::new();
        self.ch2 = Channel2::new();
        self.ch3 = Channel3::new();
        self.ch4 = Channel4::new();
        self.ch1.length.value = lengths[0];
        self.ch2.length.value = lengths[1];
        self.ch3.length.value = lengths[2];
        self.ch4.length.value = lengths[3];
        self.ch3.wave_ram = wave_ram;
        self.nr50 = 0;
        self.nr51 = 0;
    }

    /// Read an APU register or wave RAM (no side effects).
    pub fn read_byte(&self, address: u16) -> (value: u8)
        requires
            self.wf(),
        ensures
            value == self.reg_read(address),
    {
        match address {
            // Wave RAM is always accessible.
            0xFF30..=0xFF3F => self.ch3.read(address),
            // NR52: power state and per-channel enable flags.
            0xFF26 => {
                let on: u8 = if self.on { 0x80 } else { 0 };
                let c4: u8 = if self.ch4.enabled { 8 } else { 0 };
                let c3: u8 = if self.ch3.enabled { 4 } else { 0 };
                let c2: u8 = if self.ch2.enabled { 2 } else { 0 };
                let c1: u8 = if self.ch1.enabled { 1 } else { 0 };
                on | c4 | c3 | c2 | c1 | 0x70
            },
            // On DMG the registers stay readable while the APU is off.
            0xFF10..=0xFF14 => self.ch1.read(address) | APU::or_mask(address),
            0xFF15..=0xFF19 => self.ch2.read(address) | APU::or_mask(address),
            0xFF1A..=0xFF1E => self.ch3.read(address) | APU::or_mask(address),
            0xFF1F..=0xFF23 => self.ch4.read(address) | APU::or_mask(address),
            0xFF24 => self.nr50,
            0xFF25 => self.nr51,
            _ => 0xFF,
        }
    }

    /// While the APU is off, only the length loads (NRx1) are writable.
    fn write_length_while_off(&mut self, address: u16, value: u8)
        requires
            old(self).wf(),
            !old(self).on,
            !(0xFF30 <= address <= 0xFF3F),
            address != 0xFF26,
        ensures
            final(self).wf(),
            *final(self) == old(self).reg_written(address, value),
    {
        proof {
            lemma_register_fields(value, 0);
        }
        match address {
            0xFF11 => {
                self.ch1.length.value = 64 - (value & 0x3F) as u16;
            },
            0xFF16 => {
                self.ch2.length.value = 64 - (value & 0x3F) as u16;
            },
            0xFF1B => {
                self.ch3.length.value = 256 - value as u16;
            },
            0xFF20 => {
                self.ch4.length.value = 64 - (value & 0x3F) as u16;
            },
            _ => {},
        }
    }

    /// Write an APU register or wave RAM.
    pub fn write_byte(&mut self, address: u16, value: u8)
        requires
            old(self).wf(),
        ensures
            final(self).wf(),
            *final(self) == old(self).reg_written(address, value),
    {
        // Wave RAM is always writable.
        if 0xFF30 <= address && address <= 0xFF3F {
            self.ch3.write(address, value, 0);
            return;
        }
        // NR52 is always writable: the master power switch.
        if address == 0xFF26 {
            let was_on = self.on;
            self.on = value & 0x80 != 0;
            if was_on && !self.on {
                self.power_off();
            }
            // Powering on resets the frame sequencer: the next falling edge
            // of bit 12 fires step 0.
            if !was_on && self.on {
                self.frame_seq_step = 0;
            }
            return;
        }
        // While off, only the length loads (NRx1) are writable on DMG, so
        // games can preload length counters.
        if !self.on {
            self.write_length_while_off(address, value);
            return;
        }
        match address {
            0xFF10..=0xFF14 => self.ch1.write(address, value),
            0xFF15..=0xFF19 => self.ch2.write(address, value, self.frame_seq_step),
            0xFF1A..=0xFF1E => {
                // DMG: triggering Ch3 while it plays corrupts wave RAM first.
                if address == 0xFF1E && value & 0x80 != 0 {
                    self.ch3.apply_dmg_trigger_corruption();
                }
                self.ch3.write(address, value, self.frame_seq_step);
            },
            0xFF1F..=0xFF23 => self.ch4.write(address, value, self.frame_seq_step),
            0xFF24 => {
                self.nr50 = value;
            },
            0xFF25 => {
                self.nr51 = value;
            },
            _ => {},
        }
    }
}

/// Sum of the levels that the low four bits of `routing` select: bit 3 =
/// Ch4, bit 2 = Ch3, bit 1 = Ch2, bit 0 = Ch1.
fn routed(routing: u8, ch1: i16, ch2: i16, ch3: i16, ch4: i16) -> (sum: i16)
    requires
        -15 <= ch1 <= 15,
        -15 <= ch2 <= 15,
        -15 <= ch3 <= 15,
        -15 <= ch4 <= 15,
    ensures
        sum == (if routing & 8 != 0 { ch4 as int } else { 0 }) + (if routing & 4 != 0 { ch3 as int } else { 0 })
            + (if routing & 2 != 0 { ch2 as int } else { 0 }) + (if routing & 1 != 0 { ch1 as int } else { 0 }),
        -60 <= sum <= 60,
{
    let mut s: i16 = 0;
    if routing & 8 != 0 {
        s = s + ch4;
    }
    if routing & 4 != 0 {
        s = s + ch3;
    }
    if routing & 2 != 0 {
        s = s + ch2;
    }
    if routing & 1 != 0 {
        s = s + ch1;
    }
    s
}

/// DAC level `2a − 15` of amplitude `a` (0–15).
fn dac_level(amplitude: u8) -> (level: i16)
    requires
        amplitude <= 15,
    ensures
        level == channel_level(true, amplitude),
        -15 <= level <= 15,
{
    2 * amplitude as i16 - 15
}

proof fn lemma_amplitude(high: u8, volume: u8)
    by (nonlinear_arith)
    requires
        high <= 1,
        volume <= 15,
    ensures
        high * volume <= 15,
{
}

proof fn lemma_level_bits(pattern: u8, phase: u8, sample: u8, shift: u8, lfsr: u16, nr50: u8)
    by (bit_vector)
    ensures
        (pattern >> phase) & 1 <= 1,
        sample >> shift <= sample,
        (lfsr & 1) ^ 1 <= 1,
        (nr50 >> 4) & 0x07 <= 7,
        nr50 & 0x07 <= 7,
{
}

/// Every channel's output level lies in −15..=15.
proof fn lemma_channel_levels(a: APU)
    requires
        a.wf(),
    ensures
        -15 <= a.ch1_level() <= 15,
        -15 <= a.ch2_level() <= 15,
        -15 <= a.ch3_level() <= 15,
        -15 <= a.ch4_level() <= 15,
{
    lemma_level_bits(DUTY_PATTERNS@[a.ch1.duty as int], a.ch1.phase, 0, 0, a.ch4.lfsr, a.nr50);
    lemma_level_bits(DUTY_PATTERNS@[a.ch2.duty as int], a.ch2.phase, a.ch3.sample_at_phase(), wave_shift(a.ch3.output_level), 0, 0);
    lemma_amplitude(duty_high(a.ch1.duty, a.ch1.phase), a.ch1.envelope.volume);
    lemma_amplitude(duty_high(a.ch2.duty, a.ch2.phase), a.ch2.envelope.volume);
    lemma_amplitude(((a.ch4.lfsr & 1) ^ 1) as u8, a.ch4.envelope.volume);
    assert(a.ch3.sample_at_phase() <= 15);
}

/// Each queued level stands for a value in −1.0..=+1.0: it is at most 480
/// in size.
pub proof fn lemma_levels_bounded(a: APU)
    requires
        a.wf(),
    ensures
        -480 <= a.left_level() <= 480,
        -480 <= a.right_level() <= 480,
{
    lemma_channel_levels(a);
    lemma_level_bits(0, 0, 0, 0, 0, a.nr50);
    let l = a.routed_sum(true);
    let r = a.routed_sum(false);
    let lv = ((a.nr50 >> 4) & 0x07) + 1;
    let rv = (a.nr50 & 0x07) + 1;
    assert(-480 <= l * lv <= 480) by (nonlinear_arith)
        requires
            -60 <= l <= 60,
            1 <= lv <= 8,
    ;
    assert(-480 <= r * rv <= 480) by (nonlinear_arith)
        requires
            -60 <= r <= 60,
            1 <= rv <= 8,
    ;
}

impl APU {
    /// Wave RAM as stored (0xFF30–0xFF3F).
    pub closed spec fn wave_ram_contents(self) -> Seq<u8> {
        self.ch3.wave_ram@
    }

    /// Whether channel 3 is playing (and so owns wave RAM access).
    pub closed spec fn wave_playing(self) -> bool {
        self.ch3.enabled
    }

    /// The four length counter values (Ch1–Ch4).
    pub closed spec fn length_values(self) -> Seq<u16> {
        seq![self.ch1.length.value, self.ch2.length.value, self.ch3.length.value, self.ch4.length.value]
    }
}

/// While channel 3 is silent, a read of wave RAM returns what a write put
/// there, whether or not the APU is powered.
pub proof fn lemma_wave_ram_read_back(a: APU, address: u16, value: u8)
    requires
        a.wf(),
        !a.wave_playing(),
        0xFF30 <= address <= 0xFF3F,
    ensures
        a.reg_written(address, value).reg_read(address) == value,
        a.reg_written(address, value).wave_ram_contents() == a.wave_ram_contents().update(
            address - 0xFF30,
            value,
        ),
{
}

/// Powering the APU off (NR52 bit 7 cleared) clears NR50, NR51 and every
/// channel, but keeps the length counter values and wave RAM: NR52 then
/// reads 0x70 (no channel on) and each channel register (0xFF10–0xFF23)
/// reads only its fixed read-back bits.
pub proof fn lemma_power_off_keeps_lengths_and_wave(a: APU, value: u8)
    requires
        a.wf(),
        a.powered(),
        value & 0x80 == 0,
    ensures
        !a.reg_written(0xFF26, value).powered(),
        a.reg_written(0xFF26, value).reg_read(0xFF24) == 0,
        a.reg_written(0xFF26, value).reg_read(0xFF25) == 0,
        a.reg_written(0xFF26, value).length_values() == a.length_values(),
        a.reg_written(0xFF26, value).wave_ram_contents() == a.wave_ram_contents(),
        !a.reg_written(0xFF26, value).wave_playing(),
        a.reg_written(0xFF26, value).reg_read(0xFF26) == 0x70,
        forall|r: u16|
            0xFF10 <= r <= 0xFF23 ==> #[trigger] a.reg_written(0xFF26, value).reg_read(r)
                == APU::or_mask_of(r),
{
    let b = a.reg_written(0xFF26, value);
    assert(b.length_values() =~= a.length_values());
    assert(0u8 << 4u8 == 0u8 && 0u8 << 6u8 == 0u8 && 0u8 << 3u8 == 0u8 && 0u8 << 5u8 == 0u8
        && (0u8 | 0u8) == 0u8 && (0x70u8 | 0u8) == 0x70u8 && (0u8 | 0x70u8) == 0x70u8) by (bit_vector);
    assert forall|r: u16| 0xFF10 <= r <= 0xFF23 implies #[trigger] b.reg_read(r) == APU::or_mask_of(
        r,
    ) by {
        let m = APU::or_mask_of(r);
        assert((0u8 | m) == m) by (bit_vector);
        if r <= 0xFF14 {
            assert(b.ch1.reg_value(r) == 0);
        } else if r <= 0xFF19 {
            assert(b.ch2.reg_value(r) == 0);
        } else if r <= 0xFF1E {
            assert(b.ch3.reg_value(r) == 0);
        } else {
            assert(b.ch4.reg_value(r) == 0);
        }
    }
}

/// NR52 bits 4–6 always read 1, and bit 7 reports the power switch.
pub proof fn lemma_nr52_reads(a: APU)
    ensures
        a.reg_read(0xFF26) & 0x70 == 0x70,
        (a.reg_read(0xFF26) & 0x80 != 0) == a.powered(),
{
    let p: u8 = if a.on { 0x80 } else { 0 };
    let c4: u8 = if a.ch4.enabled { 8 } else { 0 };
    let c3: u8 = if a.ch3.enabled { 4 } else { 0 };
    let c2: u8 = if a.ch2.enabled { 2 } else { 0 };
    let c1: u8 = if a.ch1.enabled { 1 } else { 0 };
    assert((p == 0x80 || p == 0) && (c4 == 8 || c4 == 0) && (c3 == 4 || c3 == 0) && (c2 == 2 || c2 == 0) && (c1 == 1 || c1 == 0) ==> ((p | c4 | c3 | c2 | c1 | 0x70) & 0x70 == 0x70 && (((p | c4 | c3 | c2 | c1 | 0x70) & 0x80 != 0) == (p == 0x80)))) by (bit_vector);
}

proof fn lemma_duty_bits()
    by (bit_vector)
    ensures
        (0x80u8 >> 0u8) & 1 == 0,
        (0x80u8 >> 1u8) & 1 == 0,
        (0x80u8 >> 2u8) & 1 == 0,
        (0x80u8 >> 3u8) & 1 == 0,
        (0x80u8 >> 4u8) & 1 == 0,
        (0x80u8 >> 5u8) & 1 == 0,
        (0x80u8 >> 6u8) & 1 == 0,
        (0x80u8 >> 7u8) & 1 == 1,
        (0x81u8 >> 0u8) & 1 == 1,
        (0x81u8 >> 1u8) & 1 == 0,
        (0x81u8 >> 2u8) & 1 == 0,
        (0x81u8 >> 3u8) & 1 == 0,
        (0x81u8 >> 4u8) & 1 == 0,
        (0x81u8 >> 5u8) & 1 == 0,
        (0x81u8 >> 6u8) & 1 == 0,
        (0x81u8 >> 7u8) & 1 == 1,
        (0xE1u8 >> 0u8) & 1 == 1,
        (0xE1u8 >> 1u8) & 1 == 0,
        (0xE1u8 >> 2u8) & 1 == 0,
        (0xE1u8 >> 3u8) & 1 == 0,
        (0xE1u8 >> 4u8) & 1 == 0,
        (0xE1u8 >> 5u8) & 1 == 1,
        (0xE1u8 >> 6u8) & 1 == 1,
        (0xE1u8 >> 7u8) & 1 == 1,
        (0x7Eu8 >> 0u8) & 1 == 0,
        (0x7Eu8 >> 1u8) & 1 == 1,
        (0x7Eu8 >> 2u8) & 1 == 1,
        (0x7Eu8 >> 3u8) & 1 == 1,
        (0x7Eu8 >> 4u8) & 1 == 1,
        (0x7Eu8 >> 5u8) & 1 == 1,
        (0x7Eu8 >> 6u8) & 1 == 1,
        (0x7Eu8 >> 7u8) & 1 == 0,
{
}

/// The pulse channels' duty cycles: over the 8 steps of a waveform period
/// the output is high for 1, 2, 4 or 6 steps (12.5 %, 25 %, 50 %, 75 %)
/// for NRx1 duty 0, 1, 2 and 3.
pub proof fn lemma_duty_cycles()
    ensures
        forall|d: u8|
            d <= 3 ==> #[trigger] duty_high(d, 0) + duty_high(d, 1) + duty_high(d, 2) + duty_high(d, 3)
                + duty_high(d, 4) + duty_high(d, 5) + duty_high(d, 6) + duty_high(d, 7) == (if d == 0 {
                1int
            } else if d == 1 {
                2
            } else if d == 2 {
                4
            } else {
                6
            }),
{
    lemma_duty_bits();
    assert(DUTY_PATTERNS@[0] == 0x80 && DUTY_PATTERNS@[1] == 0x81 && DUTY_PATTERNS@[2] == 0xE1
        && DUTY_PATTERNS@[3] == 0x7E);
    assert forall|d: u8| d <= 3 implies #[trigger] duty_high(d, 0) + duty_high(d, 1) + duty_high(d, 2)
        + duty_high(d, 3) + duty_high(d, 4) + duty_high(d, 5) + duty_high(d, 6) + duty_high(d, 7)
        == (if d == 0 {
        1int
    } else if d == 1 {
        2
    } else if d == 2 {
        4
    } else {
        6
    }) by {
        if d == 0 {
            assert(DUTY_PATTERNS@[d as int] == 0x80);
            assert(duty_high(d, 0) == (0x80u8 >> 0u8) & 1);
            assert(duty_high(d, 1) == (0x80u8 >> 1u8) & 1);
            assert(duty_high(d, 2) == (0x80u8 >> 2u8) & 1);
            assert(duty_high(d, 3) == (0x80u8 >> 3u8) & 1);
            assert(duty_high(d, 4) == (0x80u8 >> 4u8) & 1);
            assert(duty_high(d, 5) == (0x80u8 >> 5u8) & 1);
            assert(duty_high(d, 6) == (0x80u8 >> 6u8) & 1);
            assert(duty_high(d, 7) == (0x80u8 >> 7u8) & 1);
        } else if d == 1 {
            assert(DUTY_PATTERNS@[d as int] == 0x81);
            assert(duty_high(d, 0) == (0x81u8 >> 0u8) & 1);
            assert(duty_high(d, 1) == (0x81u8 >> 1u8) & 1);
            assert(duty_high(d, 2) == (0x81u8 >> 2u8) & 1);
            assert(duty_high(d, 3) == (0x81u8 >> 3u8) & 1);
            assert(duty_high(d, 4) == (0x81u8 >> 4u8) & 1);
            assert(duty_high(d, 5) == (0x81u8 >> 5u8) & 1);
            assert(duty_high(d, 6) == (0x81u8 >> 6u8) & 1);
            assert(duty_high(d, 7) == (0x81u8 >> 7u8) & 1);
        } else if d == 2 {
            assert(DUTY_PATTERNS@[d as int] == 0xE1);
            assert(duty_high(d, 0) == (0xE1u8 >> 0u8) & 1);
            assert(duty_high(d, 1) == (0xE1u8 >> 1u8) & 1);
            assert(duty_high(d, 2) == (0xE1u8 >> 2u8) & 1);
            assert(duty_high(d, 3) == (0xE1u8 >> 3u8) & 1);
            assert(duty_high(d, 4) == (0xE1u8 >> 4u8) & 1);
            assert(duty_high(d, 5) == (0xE1u8 >> 5u8) & 1);
            assert(duty_high(d, 6) == (0xE1u8 >> 6u8) & 1);
            assert(duty_high(d, 7) == (0xE1u8 >> 7u8) & 1);
        } else {
            assert(DUTY_PATTERNS@[d as int] == 0x7E);
            assert(duty_high(d, 0) == (0x7Eu8 >> 0u8) & 1);
            assert(duty_high(d, 1) == (0x7Eu8 >> 1u8) & 1);
            assert(duty_high(d, 2) == (0x7Eu8 >> 2u8) & 1);
            assert(duty_high(d, 3) == (0x7Eu8 >> 3u8) & 1);
            assert(duty_high(d, 4) == (0x7Eu8 >> 4u8) & 1);
            assert(duty_high(d, 5) == (0x7Eu8 >> 5u8) & 1);
            assert(duty_high(d, 6) == (0x7Eu8 >> 6u8) & 1);
            assert(duty_high(d, 7) == (0x7Eu8 >> 7u8) & 1);
        }
    }
}

proof fn lemma_wave_shift_bits(s: u8)
    by (bit_vector)
    requires
        s <= 15,
    ensures
        s >> 4u8 == 0,
        s >> 0u8 == s,
        s >> 1u8 == s / 2,
        s >> 2u8 == s / 4,
{
}

/// Channel 3's output level (NR32 bits 6–5): 0 mutes it, 1 plays the
/// 4-bit sample at full volume, 2 at half and 3 at a quarter (rounded
/// down).
pub proof fn lemma_wave_volume(s: u8)
    requires
        s <= 15,
    ensures
        s >> wave_shift(0) == 0,
        s >> wave_shift(1) == s,
        s >> wave_shift(2) == s / 2,
        s >> wave_shift(3) == s / 4,
{
    lemma_wave_shift_bits(s);
}

} // verus!
