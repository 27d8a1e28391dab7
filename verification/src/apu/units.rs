//! Building blocks shared by the four APU channels.
use vstd::prelude::*;

verus! {

/// Volume envelope direction, NRx2 bit 3.
///
/// The envelope steps the DAC volume up (`Increase`) or down (`Decrease`)
/// by 1 each time the envelope timer expires (64 Hz ticks from
/// frame-sequencer step 7).  A period of 0 freezes the envelope.
#[derive(Debug, Clone, Copy, PartialEq, Eq, Structural)]
pub enum EnvDir {
    Decrease,
    Increase,
}

pub open spec fn env_dir_of(b: bool) -> EnvDir {
    if b {
        EnvDir::Increase
    } else {
        EnvDir::Decrease
    }
}

/// The NRx2 bit 3 value of a direction.
pub open spec fn env_dir_bit(d: EnvDir) -> u8 {
    match d {
        EnvDir::Decrease => 0,
        EnvDir::Increase => 1,
    }
}

impl EnvDir {
    pub fn from_bit(b: bool) -> (d: EnvDir)
        ensures
            d == env_dir_of(b),
    {
        if b {
            EnvDir::Increase
        } else {
            EnvDir::Decrease
        }
    }

    /// The NRx2 bit 3 value of this direction.
    pub fn bit(self) -> (b: u8)
        ensures
            b == env_dir_bit(self),
    {
        match self {
            EnvDir::Decrease => 0,
            EnvDir::Increase => 1,
        }
    }
}

/// Length counter shared by all four channels.
///
/// When `enabled`, the counter decrements once per length clock (256 Hz;
/// frame-sequencer steps 0, 2, 4, 6).  When it reaches zero the channel is
/// silenced.  It is loaded with `64 − NRx1[5:0]` for channels 1, 2 and 4,
/// and with `256 − NR31` for channel 3.
#[derive(Debug, Clone, Copy, PartialEq, Eq, Structural)]
pub struct LengthCounter {
    /// Remaining ticks.
    pub value: u16,
    /// NRx4 bit 6: stop the channel when the counter expires.
    pub enabled: bool,
}

impl LengthCounter {
    pub open spec fn zero() -> LengthCounter {
        LengthCounter { value: 0, enabled: false }
    }

    /// The counter after one length clock.
    pub open spec fn clocked(self) -> LengthCounter {
        if self.enabled && self.value > 0 {
            LengthCounter { value: (self.value - 1) as u16, ..self }
        } else {
            self
        }
    }

    /// Whether a length clock runs the counter out.
    pub open spec fn expires(self) -> bool {
        self.enabled && self.value == 1
    }

    pub fn new() -> (l: LengthCounter)
        ensures
            l == LengthCounter::zero(),
    {
        LengthCounter { value: 0, enabled: false }
    }

    /// One length clock.  Returns `true` when the counter has just reached
    /// zero, which silences the channel.
    pub fn clock(&mut self) -> (expired: bool)
        ensures
            *final(self) == old(self).clocked(),
            expired == old(self).expires(),
    {
        if self.enabled && self.value > 0 {
            self.value = self.value - 1;
            self.value == 0
        } else {
            false
        }
    }
}

/// Volume envelope used by channels 1, 2 and 4.
///
/// On trigger, `volume` is loaded from `initial` and `timer` from `period`.
/// Every envelope clock the timer counts down; when it reaches 0 `volume`
/// steps by ±1 (staying within 0–15) and the timer reloads from `period`.
#[derive(Debug, Clone, Copy, PartialEq, Eq, Structural)]
pub struct VolumeEnvelope {
    /// Current DAC volume (0–15).
    pub volume: u8,
    /// NRx2 bits 4–7: volume loaded on trigger.
    pub initial: u8,
    /// NRx2 bit 3.
    pub dir: EnvDir,
    /// NRx2 bits 0–2: envelope period; 0 = frozen.
    pub period: u8,
    /// Internal countdown; reloads from `period`.
    pub timer: u8,
}

impl VolumeEnvelope {
    pub open spec fn zero() -> VolumeEnvelope {
        VolumeEnvelope { volume: 0, initial: 0, dir: EnvDir::Decrease, period: 0, timer: 0 }
    }

    pub open spec fn wf(self) -> bool {
        self.volume <= 15 && self.initial <= 15
    }

    pub open spec fn triggered(self) -> VolumeEnvelope {
        VolumeEnvelope { volume: self.initial, timer: self.period, ..self }
    }

    /// The envelope after one envelope clock.
    pub open spec fn clocked(self) -> VolumeEnvelope {
        if self.period == 0 {
            self
        } else {
            let timer = if self.timer > 0 {
                (self.timer - 1) as u8
            } else {
                0
            };
            if timer == 0 {
                let volume = if self.dir == EnvDir::Increase && self.volume < 15 {
                    (self.volume + 1) as u8
                } else if self.dir == EnvDir::Decrease && self.volume > 0 {
                    (self.volume - 1) as u8
                } else {
                    self.volume
                };
                VolumeEnvelope { timer: self.period, volume, ..self }
            } else {
                VolumeEnvelope { timer, ..self }
            }
        }
    }

    pub fn new() -> (e: VolumeEnvelope)
        ensures
            e == VolumeEnvelope::zero(),
            e.wf(),
    {
        VolumeEnvelope { volume: 0, initial: 0, dir: EnvDir::Decrease, period: 0, timer: 0 }
    }

    /// Restart the envelope: load the volume and the timer.
    pub fn trigger(&mut self)
        requires
            old(self).wf(),
        ensures
            *final(self) == old(self).triggered(),
            final(self).wf(),
    {
        self.volume = self.initial;
        self.timer = self.period;
    }

    /// One envelope clock (64 Hz).
    pub fn clock(&mut self)
        requires
            old(self).wf(),
        ensures
            *final(self) == old(self).clocked(),
            final(self).wf(),
    {
        if self.period == 0 {
            return;
        }
        if self.timer > 0 {
            self.timer = self.timer - 1;
        }
        if self.timer == 0 {
            self.timer = self.period;
            if self.dir == EnvDir::Increase && self.volume < 15 {
                self.volume = self.volume + 1;
            } else if self.dir == EnvDir::Decrease && self.volume > 0 {
                self.volume = self.volume - 1;
            }
        }
    }
}

/// The envelope never leaves the 0–15 volume range, and with period 0 it
/// does not move at all.
pub proof fn lemma_envelope_bounded(e: VolumeEnvelope)
    requires
        e.wf(),
    ensures
        e.clocked().wf(),
        e.triggered().wf(),
        e.period == 0 ==> e.clocked() == e,
{
}

/// A length counter that is not enabled never runs out.
pub proof fn lemma_length_disabled_holds(l: LengthCounter)
    requires
        !l.enabled,
    ensures
        l.clocked() == l,
        !l.expires(),
{
}

/// An envelope clock: with a non-zero period the countdown runs down by
/// one, and on the clock that ends it the volume moves one step — up when
/// the direction is Increase (NRx2 bit 3 set), down otherwise — stopping at
/// 15 and 0, and the countdown restarts from the period.  So after a
/// trigger the volume first moves on the `period`-th clock.
pub proof fn lemma_envelope_step(e: VolumeEnvelope)
    requires
        e.wf(),
        e.period > 0,
    ensures
        e.timer > 1 ==> e.clocked() == (VolumeEnvelope { timer: (e.timer - 1) as u8, ..e }),
        e.timer <= 1 ==> e.clocked().timer == e.period,
        e.timer <= 1 && e.dir == EnvDir::Increase ==> e.clocked().volume as int == (if e.volume == 15 {
            15
        } else {
            e.volume + 1
        }),
        e.timer <= 1 && e.dir == EnvDir::Decrease ==> e.clocked().volume as int == (if e.volume == 0 {
            0
        } else {
            e.volume - 1
        }),
        e.triggered().volume == e.initial && e.triggered().timer == e.period,
        env_dir_of(true) == EnvDir::Increase && env_dir_of(false) == EnvDir::Decrease,
        env_dir_bit(EnvDir::Increase) == 1 && env_dir_bit(EnvDir::Decrease) == 0,
{
}

} // verus!
