//! DMG hardware timer (DIV / TIMA / TMA / TAC).
//!
//! Everything derives from a free-running 16-bit system counter that
//! advances every T-cycle.  DIV is its upper byte.  TIMA increments on a
//! falling edge of the counter bit selected by TAC bits 0..=1, gated by TAC
//! bit 2.  When TIMA overflows it reads 0x00 for one machine cycle (cycle A,
//! during which a CPU write cancels the reload), and on the next machine
//! cycle (cycle B) it is reloaded from TMA and the timer interrupt (IF bit 2)
//! is raised.
use vstd::prelude::*;

verus! {

/// IF bit for the timer interrupt.
pub const TIMER_INTERRUPT_BIT: u8 = 4;

/// System counter value when the boot ROM hands control to the cartridge
/// (DIV = 0xAB, with the sub-DIV phase the boot ROM leaves behind).
pub const SYSTEM_COUNTER_POST_BOOT: u16 = 0xABD0;

/// T-cycles in one machine cycle.
pub const T_CYCLES_PER_M_CYCLE: u16 = 4;

#[derive(Debug, Default, Clone, Copy, PartialEq, Eq, Structural)]
pub struct Timer {
    /// TIMA (FF05): timer counter.
    pub tima: u8,
    /// TMA (FF06): reload value.
    pub tma: u8,
    /// TAC (FF07): bit 2 = enable, bits 0..=1 = clock select.
    pub tac: u8,
    /// Free-running system counter; DIV is its upper byte.
    pub system_counter: u16,
    /// Set on the machine cycle whose tick overflowed TIMA (cycle A follows).
    pub tima_overflow_pending: bool,
    /// Set during cycle A; the next tick reloads TMA and raises the interrupt.
    pub tima_reload_pending: bool,
}

/// The counter bit whose falling edge clocks TIMA for TAC clock select `tac & 3`
/// (bits 9, 3, 5, 7).
pub open spec fn tima_bit_of(tac: u8) -> u16 {
    let sel = tac % 4;
    if sel == 0 {
        0x200
    } else if sel == 1 {
        0x8
    } else if sel == 2 {
        0x20
    } else {
        0x80
    }
}

pub open spec fn enabled_of(tac: u8) -> bool {
    tac & 4 != 0
}

impl Timer {
    pub open spec fn post_boot() -> Timer {
        Timer {
            tima: 0,
            tma: 0,
            tac: 0,
            system_counter: SYSTEM_COUNTER_POST_BOOT,
            tima_overflow_pending: false,
            tima_reload_pending: false,
        }
    }

    pub open spec fn power_on() -> Timer {
        Timer { system_counter: 0, ..Timer::post_boot() }
    }

    /// TIMA incremented, starting the reload sequence on overflow.
    pub open spec fn tima_advanced(self) -> Timer {
        if self.tima == 0xFF {
            Timer { tima: 0, tima_overflow_pending: true, ..self }
        } else {
            Timer { tima: (self.tima + 1) as u8, ..self }
        }
    }

    /// One machine cycle: the new timer and the new IF value.
    pub open spec fn m_cycle(self, interrupt_flag: u8) -> (Timer, u8) {
        let (t1, f1) = if self.tima_reload_pending {
            (
                Timer { tima_reload_pending: false, tima: self.tma, ..self },
                interrupt_flag | TIMER_INTERRUPT_BIT,
            )
        } else {
            (self, interrupt_flag)
        };
        let t2 = if t1.tima_overflow_pending {
            Timer { tima_overflow_pending: false, tima_reload_pending: true, ..t1 }
        } else {
            t1
        };
        let before = t2.system_counter;
        let t3 = Timer { system_counter: before.wrapping_add(4), ..t2 };
        let bit = tima_bit_of(t3.tac);
        if enabled_of(t3.tac) && before & bit != 0 && t3.system_counter & bit == 0 {
            (t3.tima_advanced(), f1)
        } else {
            (t3, f1)
        }
    }

    /// `n` machine cycles.
    pub open spec fn m_cycles(self, interrupt_flag: u8, n: nat) -> (Timer, u8)
        decreases n,
    {
        if n == 0 {
            (self, interrupt_flag)
        } else {
            let (t, f) = self.m_cycles(interrupt_flag, (n - 1) as nat);
            t.m_cycle(f)
        }
    }

    /// The value a CPU read of TIMA returns: TMA while the reload commits.
    pub open spec fn tima_read(self) -> u8 {
        if self.tima_reload_pending {
            self.tma
        } else {
            self.tima
        }
    }

    pub open spec fn tima_written(self, value: u8) -> Timer {
        Timer { tima_overflow_pending: false, tima: value, ..self }
    }

    pub open spec fn divider_reset(self) -> Timer {
        let t = Timer { system_counter: 0, ..self };
        if enabled_of(self.tac) && self.system_counter & tima_bit_of(self.tac) != 0 {
            t.tima_advanced()
        } else {
            t
        }
    }

    /// TAC written: a 1 -> 0 transition of the TIMA clock mux (seen 8 T-cycles
    /// ahead, the write's latency) clocks TIMA once.
    pub open spec fn tac_written(self, value: u8) -> Timer {
        let check = self.system_counter.wrapping_add(8);
        let old_mux = enabled_of(self.tac) && check & tima_bit_of(self.tac) != 0;
        let t = Timer { tac: value, ..self };
        let new_mux = enabled_of(value) && check & tima_bit_of(value) != 0;
        if old_mux && !new_mux {
            t.tima_advanced()
        } else {
            t
        }
    }

    /// The timer as the boot ROM leaves it at PC = 0x0100.
    pub fn new() -> (t: Self)
        ensures
            t == Timer::post_boot(),
    {
        Timer {
            tima: 0,
            tma: 0,
            tac: 0,
            system_counter: SYSTEM_COUNTER_POST_BOOT,
            tima_overflow_pending: false,
            tima_reload_pending: false,
        }
    }

    /// The power-on timer (counter at zero), for running a boot ROM.
    pub fn cold_start() -> (t: Self)
        ensures
            t == Timer::power_on(),
    {
        Timer {
            tima: 0,
            tma: 0,
            tac: 0,
            system_counter: 0,
            tima_overflow_pending: false,
            tima_reload_pending: false,
        }
    }

    /// DIV (FF04): the upper byte of the system counter.
    pub fn div(&self) -> (d: u8)
        ensures
            d == self.system_counter / 256,
    {
        (self.system_counter / 256) as u8
    }

    pub fn system_counter(&self) -> (c: u16)
        ensures
            c == self.system_counter,
    {
        self.system_counter
    }

    /// Advance the timer by `cycles` T-cycles, one machine cycle at a time.
    pub fn step(&mut self, cycles: u16, interrupt_flag: &mut u8)
        ensures
            (*final(self), *final(interrupt_flag)) == old(self).m_cycles(
                *old(interrupt_flag),
                (cycles / 4) as nat,
            ),
    {
        let n = cycles / T_CYCLES_PER_M_CYCLE;
        let mut i: u16 = 0;
        while i < n
            invariant
                i <= n,
                n == cycles / 4,
                (*self, *interrupt_flag) == old(self).m_cycles(*old(interrupt_flag), i as nat),
            decreases n - i,
        {
            self.step_m_cycle(interrupt_flag);
            i = i + 1;
        }
    }

    /// Read TIMA (FF05): during cycle B the reload value is already visible.
    pub fn read_tima(&self) -> (v: u8)
        ensures
            v == self.tima_read(),
    {
        if self.tima_reload_pending {
            self.tma
        } else {
            self.tima
        }
    }

    /// Write TIMA (FF05): cancels a reload still in cycle A; a reload in
    /// cycle B still wins on the next tick.
    pub fn write_tima(&mut self, value: u8)
        ensures
            *final(self) == old(self).tima_written(value),
    {
        self.tima_overflow_pending = false;
        self.tima = value;
    }

    /// Write DIV (FF04): reset the system counter, returning its old value.
    /// A set TIMA tap bit falls to 0 and clocks TIMA once.
    pub fn reset_divider(&mut self) -> (old_counter: u16)
        ensures
            old_counter == old(self).system_counter,
            *final(self) == old(self).divider_reset(),
    {
        let old = self.system_counter;
        self.system_counter = 0;

        if self.timer_enabled() && old & self.tima_bit() != 0 {
            self.advance_tima();
        }

        old
    }

    /// Write TAC (FF07).
    pub fn write_tac(&mut self, value: u8)
        ensures
            *final(self) == old(self).tac_written(value),
    {
        let check_counter = self.system_counter.wrapping_add(T_CYCLES_PER_M_CYCLE * 2);

        let old_bit = self.tima_bit();
        let old_mux = self.timer_enabled() && check_counter & old_bit != 0;

        self.tac = value;

        let new_mux = self.timer_enabled() && check_counter & self.tima_bit() != 0;

        if old_mux && !new_mux {
            self.advance_tima();
        }
    }

    /// Advance by one machine cycle.
    pub fn step_m_cycle(&mut self, interrupt_flag: &mut u8)
        ensures
            (*final(self), *final(interrupt_flag)) == old(self).m_cycle(*old(interrupt_flag)),
    {
        if self.tima_reload_pending {
            self.tima_reload_pending = false;
            self.tima = self.tma;
            *interrupt_flag = *interrupt_flag | TIMER_INTERRUPT_BIT;
        }

        if self.tima_overflow_pending {
            self.tima_overflow_pending = false;
            self.tima_reload_pending = true;
        }

        let old = self.system_counter;
        self.system_counter = self.system_counter.wrapping_add(T_CYCLES_PER_M_CYCLE);

        if self.timer_enabled() {
            let bit = self.tima_bit();
            if old & bit != 0 && self.system_counter & bit == 0 {
                self.advance_tima();
            }
        }
    }

    fn advance_tima(&mut self)
        ensures
            *final(self) == old(self).tima_advanced(),
    {
        if self.tima == 0xFF {
            self.tima = 0x00;
            self.tima_overflow_pending = true;
        } else {
            self.tima = self.tima + 1;
        }
    }

    fn timer_enabled(&self) -> (e: bool)
        ensures
            e == enabled_of(self.tac),
    {
        self.tac & 0b100 != 0
    }

    fn tima_bit(&self) -> (b: u16)
        ensures
            b == tima_bit_of(self.tac),
    {
        let sel = self.tac % 4;
        if sel == 0 {
            0x200
        } else if sel == 1 {
            0x8
        } else if sel == 2 {
            0x20
        } else {
            0x80
        }
    }
}

/// Once TIMA overflows, the reload from TMA and the timer interrupt arrive
/// exactly two machine cycles later (if no TIMA write intervenes).
pub proof fn lemma_overflow_reloads_two_cycles_later(t: Timer, flag: u8)
    requires
        t.tima_overflow_pending,
        !t.tima_reload_pending,
    ensures
        ({
            let (t1, f1) = t.m_cycle(flag);
            let (t2, f2) = t1.m_cycle(f1);
            &&& t1.tima_reload_pending
            &&& f1 == flag
            &&& (t2.tima == t.tma || t2.tima == (t.tma + 1) as u8 || (t.tma == 0xFF && t2.tima == 0))
            &&& f2 == flag | TIMER_INTERRUPT_BIT
        }),
{
}

/// DIV advances by one every 256 T-cycles: 64 machine cycles move the
/// system counter by exactly 256.
pub proof fn lemma_counter_advances(t: Timer, flag: u8, n: nat)
    ensures
        t.m_cycles(flag, n).0.system_counter == (t.system_counter + 4 * n) % 65536,
    decreases n,
{
    if n > 0 {
        lemma_counter_advances(t, flag, (n - 1) as nat);
    }
}

proof fn lemma_tap_edges(c: u16, w: u16)
    by (bit_vector)
    requires
        (c <= 65531 && w == c + 4) || (c > 65531 && w == c - 65532),
    ensures
        (c & 0x200 != 0 && w & 0x200 == 0) == (c % 1024 >= 1020),
        (c & 0x8 != 0 && w & 0x8 == 0) == (c % 16 >= 12),
        (c & 0x20 != 0 && w & 0x20 == 0) == (c % 64 >= 60),
        (c & 0x80 != 0 && w & 0x80 == 0) == (c % 256 >= 252),
{
}

/// TIMA's clock: with the timer enabled and no overflow under way, one
/// machine cycle (4 T-cycles) advances TIMA by one exactly when the system
/// counter reaches a multiple of the clock-select period, and leaves it
/// otherwise.  The periods are 1024 T-cycles (4096 Hz) for select 0, 16
/// (262144 Hz) for 1, 64 (65536 Hz) for 2 and 256 (16384 Hz) for 3.  With
/// the timer disabled TIMA never moves.
pub proof fn lemma_tima_frequency(t: Timer, flag: u8)
    requires
        !t.tima_overflow_pending,
        !t.tima_reload_pending,
        t.tima < 0xFF,
    ensures
        ({
            let next = t.m_cycle(flag).0.tima as int;
            let c = t.system_counter;
            &&& !enabled_of(t.tac) ==> next == t.tima
            &&& enabled_of(t.tac) && t.tac % 4 == 0 ==> next == t.tima + (if c % 1024 >= 1020 { 1int } else { 0 })
            &&& enabled_of(t.tac) && t.tac % 4 == 1 ==> next == t.tima + (if c % 16 >= 12 { 1int } else { 0 })
            &&& enabled_of(t.tac) && t.tac % 4 == 2 ==> next == t.tima + (if c % 64 >= 60 { 1int } else { 0 })
            &&& enabled_of(t.tac) && t.tac % 4 == 3 ==> next == t.tima + (if c % 256 >= 252 { 1int } else { 0 })
        }),
{
    let c = t.system_counter;
    lemma_tap_edges(c, c.wrapping_add(4));
}

proof fn lemma_tac_bit(tac: u8)
    by (bit_vector)
    ensures
        (tac & 4 != 0) == ((tac / 4) % 2 == 1),
{
}

/// TAC: bit 2 enables TIMA and only bits 1–0 select its clock.
pub proof fn lemma_tac_and_div(t: Timer)
    ensures
        enabled_of(t.tac) == ((t.tac / 4) % 2 == 1),
        tima_bit_of(t.tac) == tima_bit_of(t.tac % 4),
{
    lemma_tac_bit(t.tac);
}

} // verus!
