//! DMG serial port (SB / SC).
//!
//! The serial port is an SPI shift register.  One Game Boy drives the clock
//! (master, SC bit 0 = 1); the other waits for it (slave, SC bit 0 = 0).
//! SC bit 7 starts a transfer and reads 1 while it is in progress.
//!
//! Transfers are modelled as **instantaneous**: writing SC with bits 7 and 0
//! both set immediately captures SB into the output buffer, clears SC bit 7,
//! and signals completion.  This suffices for single-player games and for
//! test ROMs that print text over the serial port, which write SB, then SC,
//! then poll SC bit 7 or wait for the interrupt.  A slave-mode transfer
//! needs a second Game Boy to drive the clock; without one it never
//! completes and no interrupt fires.
use vstd::prelude::*;
use crate::log::{append_log, lemma_log_push, log_pushed, ChunkLog};
use crate::text::{all_ascii, ascii_chars, lossy_utf8, utf8_lossy};

verus! {

broadcast use vstd::array::group_array_axioms;

pub struct Serial {
    /// SB (FF01): serial transfer data.
    sb: u8,
    /// SC (FF02): serial transfer control.
    sc: u8,
    /// Every byte sent so far.
    log: ChunkLog<u8>,
    /// How many bytes the log holds.
    count: usize,
}

impl Serial {
    #[verifier::type_invariant]
    spec fn inv(self) -> bool {
        &&& self.log.wf()
        &&& self.count == self.log.contents().len()
    }

    /// Every byte sent so far, oldest first.
    pub closed spec fn sent(&self) -> Seq<u8> {
        self.log.contents()
    }

    /// Whether the log's byte count can still grow (it is a `usize`, so
    /// only a log of `usize::MAX` bytes, beyond any memory, has no room).
    pub open spec fn has_room(&self) -> bool {
        self.sent().len() < usize::MAX
    }

    /// SB as a read of FF01 returns it.
    pub closed spec fn data(&self) -> u8 {
        self.sb
    }

    /// SC as last written (bit 7 cleared once a transfer completes).
    pub closed spec fn control(&self) -> u8 {
        self.sc
    }

    /// Whether an SC write of `value` starts a transfer that completes here:
    /// transfer enable (bit 7) with the internal clock (bit 0).
    pub open spec fn starts_transfer(value: u8) -> bool {
        value & 0x80 != 0 && value & 0x01 != 0
    }

    /// The port after an SB write.
    pub closed spec fn data_written(self, value: u8) -> Serial {
        Serial { sb: value, ..self }
    }

    /// The port after an SC write, and whether a transfer completed.
    pub closed spec fn control_written(self, value: u8) -> (Serial, bool) {
        if Serial::starts_transfer(value) {
            let s = if self.has_room() {
                Serial { log: self.log.pushed(self.sb), count: (self.count + 1) as usize, ..self }
            } else {
                self
            };
            (Serial { sc: value & 0x7F, ..s }, true)
        } else {
            (Serial { sc: value, ..self }, false)
        }
    }

    /// Read SB (FF01).
    pub fn read_data(&self) -> (v: u8)
        ensures
            v == self.data(),
    {
        self.sb
    }

    /// Read SC (FF02).
    pub fn read_control(&self) -> (v: u8)
        ensures
            v == self.control(),
    {
        self.sc
    }

    pub fn new() -> (s: Serial)
        ensures
            s.data() == 0,
            s.control() == 0,
            s.sent() == Seq::<u8>::empty(),
            s.has_room(),
    {
        let s = Serial { sb: 0, sc: 0, log: ChunkLog::Empty, count: 0 };
        assert(s.sent() =~= Seq::<u8>::empty());
        s
    }

    /// The bytes sent so far.
    pub fn output_bytes(&self) -> (bytes: Vec<u8>)
        ensures
            bytes@ == self.sent(),
    {
        proof {
            use_type_invariant(self);
        }
        let mut out: Vec<u8> = Vec::new();
        append_log(&self.log, &mut out);
        assert(out@ =~= self.sent());
        out
    }

    /// The bytes sent so far, decoded as UTF-8 (invalid sequences become
    /// U+FFFD).
    pub fn output_string(&self) -> (text: String)
        ensures
            text@ == lossy_utf8(self.sent()),
            all_ascii(self.sent()) ==> text@ == ascii_chars(self.sent()),
    {
        let bytes = self.output_bytes();
        utf8_lossy(bytes.as_slice())
    }

    pub fn len(&self) -> (n: usize)
        ensures
            n == self.sent().len(),
    {
        proof {
            use_type_invariant(self);
        }
        self.count
    }

    pub fn is_empty(&self) -> (e: bool)
        ensures
            e == (self.sent().len() == 0),
    {
        proof {
            use_type_invariant(self);
        }
        self.count == 0
    }

    /// Write SB (FF01).
    pub fn write_data(&mut self, value: u8)
        ensures
            *final(self) == old(self).data_written(value),
    {
        proof {
            use_type_invariant(&*self);
        }
        self.sb = value;
    }

    /// Write SC (FF02).  Transfers are instantaneous: with bits 7 and 0 set,
    /// SB is sent at once and bit 7 cleared.  Returns whether a transfer
    /// completed, which raises the serial interrupt.
    pub fn write_control(&mut self, value: u8) -> (completed: bool)
        ensures
            (*final(self), completed) == old(self).control_written(value),
    {
        proof {
            use_type_invariant(&*self);
        }
        self.sc = value;
        let start_transfer = (value & 0x80) != 0;
        // Bit 0 = 1: internal clock (this Game Boy drives the transfer).
        // Bit 0 = 0: external clock; without a second Game Boy the transfer
        // never completes and no interrupt fires.
        let internal_clock = (value & 0x01) != 0;
        let mut completed = false;
        if start_transfer && internal_clock {
            if self.count < usize::MAX {
                let mut taken = Serial::new();
                std::mem::swap(&mut taken, self);
                proof {
                    use_type_invariant(&taken);
                }
                let Serial { sb, sc, log, count } = taken;
                proof {
                    lemma_log_push(log, sb);
                }
                let log = log_pushed(log, sb);
                *self = Serial { sb, sc: sc & 0x7F, log, count: count + 1 };
            } else {
                self.sc = self.sc & 0x7F;
            }
            completed = true;
        }
        completed
    }
}

/// An SB write stores the byte and changes nothing else.
pub proof fn lemma_data_write(s: Serial, value: u8)
    ensures
        s.data_written(value).data() == value,
        s.data_written(value).control() == s.control(),
        s.data_written(value).sent() == s.sent(),
        s.data_written(value).has_room() == s.has_room(),
{
}

/// An SC write that starts no internally clocked transfer stores SC as
/// written, sends nothing and completes nothing.
pub proof fn lemma_control_write_without_transfer(s: Serial, value: u8)
    requires
        !Serial::starts_transfer(value),
    ensures
        !s.control_written(value).1,
        s.control_written(value).0.control() == value,
        s.control_written(value).0.data() == s.data(),
        s.control_written(value).0.sent() == s.sent(),
{
}

/// A completed transfer appends SB to the output and leaves SC with bit 7
/// cleared.
pub proof fn lemma_transfer_appends(s: Serial, value: u8)
    requires
        Serial::starts_transfer(value),
        s.has_room(),
    ensures
        s.control_written(value).1,
        s.control_written(value).0.sent() == s.sent().push(s.data()),
        s.control_written(value).0.control() == value & 0x7F,
        s.control_written(value).0.data() == s.data(),
{
    let t = s.control_written(value).0;
    assert(t.sent() =~= s.sent().push(s.data()));
}

impl Default for Serial {
    fn default() -> (s: Self)
        ensures
            s.data() == 0,
            s.control() == 0,
            s.sent() == Seq::<u8>::empty(),
            s.has_room(),
    {
        Serial::new()
    }
}

proof fn lemma_sc_bits(v: u8)
    by (bit_vector)
    ensures
        (v & 0x80 != 0 && v & 0x01 != 0) == (v >= 128 && v % 2 == 1),
        v & 0x7F == v % 128,
{
}

/// SC: a transfer starts exactly when bit 7 (start) and bit 0 (internal
/// clock) are both set, and once it completes SC reads back with bit 7
/// cleared.
pub proof fn lemma_sc_transfer_bits(s: Serial, v: u8)
    ensures
        Serial::starts_transfer(v) == (v >= 128 && v % 2 == 1),
        Serial::starts_transfer(v) ==> s.control_written(v).0.control() == v % 128,
{
    lemma_sc_bits(v);
}

} // verus!
