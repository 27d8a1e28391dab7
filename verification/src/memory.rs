//! The bus seen by the CPU.
//!
//! Every implementor describes itself by three spec functions: what a read
//! returns in a given state (`peek`), the state left behind by a read
//! (`read_effect`; almost always unchanged, but an OAM read during the PPU's
//! OAM scan flags a corruption), and the state after a write (`poke`).
use vstd::prelude::*;

verus! {

pub trait Memory: Sized {
    /// The implementor's own invariant, kept by every access.
    spec fn inv(&self) -> bool;

    /// The byte a read of `address` returns in this state.
    spec fn peek(&self, address: u16) -> u8;

    /// The state after a read of `address`.
    spec fn read_effect(self, address: u16) -> Self;

    /// The state after writing `value` to `address`.
    spec fn poke(self, address: u16, value: u8) -> Self;

    fn read_byte(&mut self, address: u16) -> (value: u8)
        requires
            old(self).inv(),
        ensures
            final(self).inv(),
            value == old(self).peek(address),
            *final(self) == old(self).read_effect(address),
    ;

    fn write_byte(&mut self, address: u16, value: u8)
        requires
            old(self).inv(),
        ensures
            final(self).inv(),
            *final(self) == old(self).poke(address, value),
    ;

    /// Little-endian word read: low byte at `address`, high byte at `address + 1`.
    fn read_word(&mut self, address: u16) -> (value: u16)
        requires
            old(self).inv(),
        ensures
            final(self).inv(),
            value == old(self).read_effect(address).peek(address.wrapping_add(1)) as int * 256
                + old(self).peek(address) as int,
            *final(self) == old(self).read_effect(address).read_effect(address.wrapping_add(1)),
    {
        let lo = self.read_byte(address);
        let hi = self.read_byte(address.wrapping_add(1));
        hi as u16 * 256 + lo as u16
    }

    /// Little-endian word write: low byte at `address`, high byte at `address + 1`.
    fn write_word(&mut self, address: u16, value: u16)
        requires
            old(self).inv(),
        ensures
            final(self).inv(),
            *final(self) == old(self).poke(address, (value % 256) as u8).poke(
                address.wrapping_add(1),
                (value / 256) as u8,
            ),
    {
        let lo = (value % 256) as u8;
        let hi = (value / 256) as u8;
        self.write_byte(address, lo);
        self.write_byte(address.wrapping_add(1), hi);
    }
}

/// The word a `read_word` of `address` returns.
pub open spec fn word_read_value<M: Memory>(m: M, address: u16) -> u16 {
    let lo = m.peek(address);
    let hi = m.read_effect(address).peek(address.wrapping_add(1));
    (hi as int * 256 + lo as int) as u16
}

/// The state after a `write_word` of `value` at `address`.
pub open spec fn word_written<M: Memory>(m: M, address: u16, value: u16) -> M {
    m.poke(address, (value % 256) as u8).poke(address.wrapping_add(1), (value / 256) as u8)
}

pub trait MemoryBus: Memory {
    /// The state after one machine cycle (4 T-cycles) of the clocked hardware.
    spec fn ticked(self) -> Self;

    /// Advance all clocked hardware (timer, PPU, APU) by one machine cycle.
    /// The CPU calls this after each machine cycle of an instruction (each
    /// bus access, then each internal delay cycle), so that every access
    /// sees the devices as they are at that cycle.
    fn tick_m_cycle(&mut self)
        requires
            old(self).inv(),
        ensures
            final(self).inv(),
            *final(self) == old(self).ticked(),
    ;
}

/// The state after `n` machine cycles.
pub open spec fn ticked_n<B: MemoryBus>(b: B, n: nat) -> B
    decreases n,
{
    if n == 0 {
        b
    } else {
        ticked_n(b, (n - 1) as nat).ticked()
    }
}

/// Advance the clocked hardware by `n` machine cycles.
pub fn tick_n<B: MemoryBus>(bus: &mut B, n: u8)
    requires
        old(bus).inv(),
    ensures
        final(bus).inv(),
        *final(bus) == ticked_n(*old(bus), n as nat),
{
    let mut i: u8 = 0;
    while i < n
        invariant
            i <= n,
            bus.inv(),
            *bus == ticked_n(*old(bus), i as nat),
        decreases n - i,
    {
        bus.tick_m_cycle();
        i = i + 1;
    }
}

/// A bus as the CPU drives it during one instruction.  Every access is one
/// machine cycle: the clocked hardware advances by one machine cycle right
/// after the access, so each access sees the hardware exactly as many
/// machine cycles into the instruction as accesses came before it.
/// `cycles` counts the machine cycles spent on accesses so far.
pub struct Clocked<B> {
    pub bus: B,
    pub cycles: u8,
}

impl<B: MemoryBus> Memory for Clocked<B> {
    open spec fn inv(&self) -> bool {
        self.bus.inv()
    }

    open spec fn peek(&self, address: u16) -> u8 {
        self.bus.peek(address)
    }

    open spec fn read_effect(self, address: u16) -> Self {
        Clocked { bus: self.bus.read_effect(address).ticked(), cycles: self.cycles.wrapping_add(1) }
    }

    open spec fn poke(self, address: u16, value: u8) -> Self {
        Clocked { bus: self.bus.poke(address, value).ticked(), cycles: self.cycles.wrapping_add(1) }
    }

    fn read_byte(&mut self, address: u16) -> (value: u8) {
        let value = self.bus.read_byte(address);
        self.bus.tick_m_cycle();
        self.cycles = self.cycles.wrapping_add(1);
        value
    }

    fn write_byte(&mut self, address: u16, value: u8) {
        self.bus.write_byte(address, value);
        self.bus.tick_m_cycle();
        self.cycles = self.cycles.wrapping_add(1);
    }
}

pub open spec fn clocked<B>(bus: B, cycles: u8) -> Clocked<B> {
    Clocked { bus, cycles }
}

/// Machine cycles of an `m`-cycle instruction left after its accesses: the
/// internal delay cycles.
pub open spec fn delay_cycles(spent: u8, m: nat) -> nat {
    if spent <= m {
        (m - spent) as nat
    } else {
        0
    }
}

/// The bus at the end of an instruction of `m` machine cycles whose
/// accesses left it as `c`: the internal delay cycles run after the last
/// access.
pub open spec fn settled<B: MemoryBus>(c: Clocked<B>, m: nat) -> B {
    ticked_n(c.bus, delay_cycles(c.cycles, m))
}

/// A flat 64 KiB RAM with no clocked hardware: every address reads back
/// the last byte written to it.  Useful for driving the CPU in isolation.
pub struct FlatMemory {
    pub bytes: [u8; 0x10000],
}

impl FlatMemory {
    /// 64 KiB of zeroes with `program` copied to address 0.
    pub fn new(program: &[u8]) -> (m: FlatMemory)
        requires
            program@.len() <= 0x10000,
        ensures
            forall|i: int| 0 <= i < program@.len() ==> m.bytes@[i] == program@[i],
            forall|i: int| program@.len() <= i < 0x10000 ==> m.bytes@[i] == 0,
    {
        let mut m = FlatMemory { bytes: [0u8; 0x10000] };
        m.load(0, program);
        m
    }

    /// Copy `data` into memory starting at `address`.
    pub fn load(&mut self, address: u16, data: &[u8])
        requires
            address as int + data@.len() <= 0x10000,
        ensures
            forall|i: int|
                0 <= i < 0x10000 ==> final(self).bytes@[i] == (if address <= i < address
                    + data@.len() { data@[i - address] } else { old(self).bytes@[i] }),
    {
        let mut k: usize = 0;
        while k < data.len()
            invariant
                address as int + data@.len() <= 0x10000,
                k <= data@.len(),
                forall|i: int|
                    0 <= i < 0x10000 ==> self.bytes@[i] == (if address <= i < address + k {
                        data@[i - address]
                    } else {
                        old(self).bytes@[i]
                    }),
            decreases data@.len() - k,
        {
            let at = address as usize + k;
            self.bytes[at] = data[k];
            k = k + 1;
        }
    }
}

impl Memory for FlatMemory {
    open spec fn inv(&self) -> bool {
        true
    }

    open spec fn peek(&self, address: u16) -> u8 {
        self.bytes@[address as int]
    }

    open spec fn read_effect(self, address: u16) -> Self {
        self
    }

    open spec fn poke(self, address: u16, value: u8) -> Self {
        FlatMemory { bytes: vstd::array::spec_array_update(self.bytes, address as int, value) }
    }

    fn read_byte(&mut self, address: u16) -> (value: u8) {
        self.bytes[address as usize]
    }

    fn write_byte(&mut self, address: u16, value: u8) {
        proof {
            broadcast use vstd::array::group_array_axioms;
        }
        self.bytes[address as usize] = value;
        proof {
            let expected = vstd::array::spec_array_update(old(self).bytes, address as int, value);
            assert(self.bytes =~= expected);
        }
    }
}

impl MemoryBus for FlatMemory {
    open spec fn ticked(self) -> Self {
        self
    }

    fn tick_m_cycle(&mut self) {
    }
}

} // verus!
