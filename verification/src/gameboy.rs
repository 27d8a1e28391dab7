//! The whole console: the CPU and the bus it drives.
use vstd::prelude::*;
use crate::cartridge::{Cartridge, CartridgeKind};
use crate::cpu::CPU;
use crate::cpu_spec::{lemma_step_takes_time, service_spec, step_spec};
use crate::input::Button;
use crate::memory::Memory;
use crate::mmu::MMU;
use crate::registers::Registers;
use crate::serial::Serial;
use crate::text::lossy_utf8;

verus! {

/// T-cycles in one frame: 154 scanlines of 456 dots.
pub const CYCLES_PER_FRAME: u32 = 70224;

/// Whether the registers hold the mooneye-test-suite PASS signature:
/// B=3, C=5, D=8, E=13, H=21, L=34.
pub open spec fn mooneye_signature(r: Registers) -> bool {
    r.b == 3 && r.c == 5 && r.d == 8 && r.e == 13 && r.h == 21 && r.l == 34
}

/// T-cycles left in the frame after `consumed`.
pub open spec fn cycles_left(consumed: nat) -> nat {
    if consumed < CYCLES_PER_FRAME {
        (CYCLES_PER_FRAME - consumed) as nat
    } else {
        0
    }
}

/// The console after running instructions (each followed by interrupt
/// service) from `consumed` T-cycles until the frame's 70,224 are used.
#[verifier::opaque]
pub open spec fn frame_from(cpu: CPU, bus: MMU, consumed: nat) -> (CPU, MMU)
    decreases cycles_left(consumed),
{
    if consumed >= CYCLES_PER_FRAME {
        (cpu, bus)
    } else {
        let (c1, b1, cycles) = step_spec(cpu, bus);
        let (c2, b2, extra) = service_spec(c1, b1);
        let extra: nat = match extra {
            Some(e) => e as nat,
            None => 0,
        };
        proof {
            lemma_step_takes_time(cpu, bus);
        }
        frame_from(c2, b2, consumed + cycles as nat + extra)
    }
}

/// One instruction and its interrupt service advance a frame by their
/// cycles.
proof fn lemma_frame_step(
    cpu: CPU,
    bus: MMU,
    consumed: nat,
    c1: CPU,
    b1: MMU,
    cycles: u8,
    c2: CPU,
    b2: MMU,
    extra: Option<u8>,
)
    requires
        consumed < CYCLES_PER_FRAME,
        (c1, b1, cycles) == step_spec(cpu, bus),
        (c2, b2, extra) == service_spec(c1, b1),
    ensures
        frame_from(cpu, bus, consumed) == frame_from(
            c2,
            b2,
            consumed + cycles as nat + (match extra {
                Some(e) => e as nat,
                None => 0nat,
            }),
        ),
        cycles >= 4,
{
    reveal(frame_from);
    lemma_step_takes_time(cpu, bus);
}

/// A frame that has used its cycles is over.
proof fn lemma_frame_done(cpu: CPU, bus: MMU, consumed: nat)
    requires
        consumed >= CYCLES_PER_FRAME,
    ensures
        frame_from(cpu, bus, consumed) == (cpu, bus),
{
    reveal(frame_from);
}

proof fn lemma_frame_start(cpu: CPU, bus: MMU)
    ensures
        frame(cpu, bus) == frame_from(cpu, bus, 0),
{
    reveal(frame);
}

/// One frame from `(cpu, bus)`.
#[verifier::opaque]
pub open spec fn frame(cpu: CPU, bus: MMU) -> (CPU, MMU) {
    frame_from(cpu, bus, 0)
}

/// `k` frames from `(cpu, bus)`.
pub open spec fn frames(cpu: CPU, bus: MMU, k: nat) -> (CPU, MMU)
    decreases k,
{
    if k == 0 {
        (cpu, bus)
    } else {
        let (c, b) = frames(cpu, bus, (k - 1) as nat);
        frame(c, b)
    }
}

/// The DMG owns the CPU and the bus; the bus owns the devices.
pub struct DMG {
    cpu: CPU,
    bus: MMU,
}

impl DMG {
    pub closed spec fn wf(self) -> bool {
        self.bus.wf()
    }

    pub closed spec fn processor(self) -> CPU {
        self.cpu
    }

    pub closed spec fn board(self) -> MMU {
        self.bus
    }

    /// A DMG in the state the boot ROM leaves it (PC = 0x0100).  To run an
    /// actual boot ROM use [`DMG::new_with_boot_rom`].
    pub fn new(cartridge: CartridgeKind) -> (d: DMG)
        ensures
            d.wf(),
            d.processor() == CPU::initial(Registers::post_boot()),
            d.board().cart() == cartridge,
            d.board().clock() == crate::timer::Timer::post_boot(),
            d.board().serial_port().sent() == Seq::<u8>::empty(),
    {
        DMG { cpu: CPU::new(), bus: MMU::new(cartridge, None) }
    }

    /// The post-boot-ROM DMG, as [`DMG::new`].
    pub fn new_post_bios(cartridge: CartridgeKind) -> (d: DMG)
        ensures
            d.wf(),
            d.processor() == CPU::initial(Registers::post_boot()),
            d.board().cart() == cartridge,
            d.board().clock() == crate::timer::Timer::post_boot(),
            d.board().serial_port().sent() == Seq::<u8>::empty(),
    {
        DMG { cpu: CPU::new_post_bios(), bus: MMU::new(cartridge, None) }
    }

    /// A DMG with `boot_rom` mapped at 0x0000: the CPU starts cold (PC =
    /// 0x0000, registers zero) and runs the boot ROM, which unmaps itself by
    /// writing 0xFF50 before jumping to 0x0100.
    pub fn new_with_boot_rom(cartridge: CartridgeKind, boot_rom: Vec<u8>) -> (d: DMG)
        ensures
            d.wf(),
            d.processor() == CPU::initial(Registers::power_on()),
            d.board().cart() == cartridge,
            d.board().clock() == crate::timer::Timer::power_on(),
            d.board().serial_port().sent() == Seq::<u8>::empty(),
            forall|a: u16| #[trigger] d.board().boot_rom_covers(a) == ((a as int) < boot_rom@.len()),
    {
        let d = DMG { cpu: CPU::new_cold(), bus: MMU::new(cartridge, Some(boot_rom)) };
        d
    }

    /// Run one frame: instructions, each followed by interrupt service,
    /// until 70,224 T-cycles are consumed.  The CPU ticks the devices
    /// machine cycle by machine cycle as it executes.
    pub fn step_frame(&mut self)
        requires
            old(self).wf(),
        ensures
            final(self).wf(),
            (final(self).processor(), final(self).board()) == frame(
                old(self).processor(),
                old(self).board(),
            ),
    {
        let mut consumed: u32 = 0;
        proof {
            lemma_frame_start(self.cpu, self.bus);
        }
        while consumed < CYCLES_PER_FRAME
            invariant
                self.bus.wf(),
                consumed < CYCLES_PER_FRAME + 512,
                frame(old(self).cpu, old(self).bus) == frame_from(
                    self.cpu,
                    self.bus,
                    consumed as nat,
                ),
            decreases cycles_left(consumed as nat),
        {
            let ghost (c0, b0, before) = (self.cpu, self.bus, consumed);
            let cycles = self.cpu.step(&mut self.bus);
            let ghost (c1, b1) = (self.cpu, self.bus);
            consumed = consumed + cycles as u32;
            let extra = self.cpu.service_interrupts(&mut self.bus);
            if let Some(e) = extra {
                consumed = consumed + e as u32;
            }
            proof {
                lemma_frame_step(c0, b0, before as nat, c1, b1, cycles, self.cpu, self.bus, extra);
            }
        }
        proof {
            lemma_frame_done(self.cpu, self.bus, consumed as nat);
        }
    }

    /// Run frames until `condition` holds of the serial port after a frame,
    /// or `max_steps` frames have run.  The condition is checked after each
    /// frame, and the run stops at the first frame after which it holds.
    pub fn run_until<F: Fn(&Serial) -> bool>(&mut self, condition: F, max_steps: usize)
        requires
            old(self).wf(),
            forall|s: &Serial| #[trigger] condition.requires((s,)),
        ensures
            final(self).wf(),
            exists|k: nat|
                #![trigger frames(old(self).processor(), old(self).board(), k)]
                k <= max_steps && (final(self).processor(), final(self).board()) == frames(
                    old(self).processor(),
                    old(self).board(),
                    k,
                ) && (max_steps > 0 ==> k >= 1) && (k < max_steps ==> condition.ensures(
                    (&final(self).board().serial_port(),),
                    true,
                )) && (forall|j: nat|
                    1 <= j < k ==> condition.ensures(
                        (&#[trigger] frames(old(self).processor(), old(self).board(), j).1.serial_port(),),
                        false,
                    )),
    {
        let mut step: usize = 0;
        while step < max_steps
            invariant
                self.bus.wf(),
                step <= max_steps,
                forall|s: &Serial| #[trigger] condition.requires((s,)),
                (self.cpu, self.bus) == frames(old(self).cpu, old(self).bus, step as nat),
                forall|j: nat|
                    1 <= j <= step ==> condition.ensures(
                        (&#[trigger] frames(old(self).cpu, old(self).bus, j).1.serial_port(),),
                        false,
                    ),
            decreases max_steps - step,
        {
            self.step_frame();
            step = step + 1;
            let serial = self.bus.serial();
            let met = condition(serial);
            if met {
                proof {
                    assert(condition.ensures((&self.board().serial_port(),), true));
                    assert(frames(old(self).processor(), old(self).board(), step as nat) == (
                    self.processor(), self.board()));
                }
                return;
            }
            proof {
                assert(frames(old(self).cpu, old(self).bus, step as nat).1 == self.bus);
            }
        }
        proof {
            assert(frames(old(self).processor(), old(self).board(), step as nat) == (
            self.processor(), self.board()));
        }
    }

    pub fn cpu(&self) -> (c: &CPU)
        ensures
            *c == self.processor(),
    {
        &self.cpu
    }

    pub fn serial(&self) -> (s: &Serial)
        ensures
            *s == self.board().serial_port(),
    {
        self.bus.serial()
    }

    /// Everything sent over the serial port, decoded as UTF-8.
    pub fn serial_output(&self) -> (text: String)
        ensures
            text@ == lossy_utf8(self.board().serial_port().sent()),
    {
        self.bus.serial().output_string()
    }

    /// The most recently rendered frame: shade indices 0–3, row-major
    /// (index = y × 160 + x).
    pub fn framebuffer(&self) -> (fb: &[u8])
        ensures
            fb@ == self.board().video().framebuffer@,
    {
        vstd::array::array_as_slice(self.bus.framebuffer())
    }

    /// Drain the audio levels queued since the last call (interleaved
    /// left/right; each stands for `level / 480` in −1.0..=+1.0).
    pub fn drain_samples(&mut self) -> (levels: Vec<i16>)
        requires
            old(self).wf(),
        ensures
            final(self).wf(),
            levels@ == old(self).board().audio().queued(),
            final(self).board().audio() == old(self).board().audio().drained(),
            final(self).board() == old(self).board().with_audio_drained(),
            final(self).processor() == old(self).processor(),
    {
        self.bus.drain_samples()
    }

    /// Battery-backed RAM for a `.sav` file on exit; `None` if the
    /// cartridge has no battery.
    pub fn save_data(&self) -> (data: Option<&[u8]>)
        ensures
            match data {
                Some(d) => self.board().cart().battery_ram() == Some(d@),
                None => self.board().cart().battery_ram() is None,
            },
    {
        self.bus.save_data()
    }

    /// Restore battery-backed RAM from a `.sav` file loaded at startup.  A
    /// no-op if the cartridge has no battery or the size does not match.
    pub fn load_save_data(&mut self, data: &[u8])
        requires
            old(self).wf(),
        ensures
            final(self).wf(),
            final(self).processor() == old(self).processor(),
            final(self).board().serial_port() == old(self).board().serial_port(),
            match old(self).board().cart().battery_ram() {
                Some(ram) => if ram.len() == data@.len() {
                    final(self).board().cart() == old(self).board().cart().save_loaded(data@)
                } else {
                    final(self).board() == old(self).board()
                },
                None => final(self).board() == old(self).board(),
            },
    {
        let matches = match self.bus.save_data() {
            Some(current) => current.len() == data.len(),
            None => false,
        };
        if matches {
            self.bus.load_save_data(data);
        }
    }

    /// A host key mapped to `button` is now held; raises the joypad
    /// interrupt if its row is selected and it was released.
    pub fn press(&mut self, button: Button)
        requires
            old(self).wf(),
        ensures
            final(self).wf(),
            final(self).board().pad() == old(self).board().pad().pressed(button),
            final(self).processor() == old(self).processor(),
    {
        self.bus.press_button(button);
    }

    /// A host key mapped to `button` was released (no interrupt).
    pub fn release(&mut self, button: Button)
        requires
            old(self).wf(),
        ensures
            final(self).wf(),
            final(self).board().pad() == old(self).board().pad().released(button),
            final(self).processor() == old(self).processor(),
    {
        self.bus.release_button(button);
    }

    /// Read a byte from the bus without advancing or disturbing any hardware
    /// (for test harnesses and debuggers).
    pub fn peek_byte(&self, address: u16) -> (v: u8)
        requires
            self.wf(),
        ensures
            v == self.board().value_at(address),
    {
        self.bus.peek_byte(address)
    }

    /// The CPU's program counter.
    pub fn cpu_pc(&self) -> (pc: u16)
        ensures
            pc == self.processor().reg.pc,
    {
        self.cpu.registers().pc
    }

    /// Whether the registers hold the mooneye-test-suite PASS signature
    /// (B=3, C=5, D=8, E=13, H=21, L=34), which the ROMs load before looping
    /// on `LD B,B`.
    pub fn mooneye_pass(&self) -> (pass: bool)
        ensures
            pass == mooneye_signature(self.processor().reg),
    {
        let r = self.cpu.registers();
        r.b == 3 && r.c == 5 && r.d == 8 && r.e == 13 && r.h == 21 && r.l == 34
    }
}

} // verus!
