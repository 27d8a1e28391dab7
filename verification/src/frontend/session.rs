//! An emulator session as the desktop shell drives it: built from a
//! cartridge (with an optional boot ROM and save file), fed key events,
//! and run one frame per redraw.
use vstd::prelude::*;
use crate::cartridge::{Cartridge, CartridgeKind};
use crate::cpu::CPU;
use crate::frontend::audio::AudioSink;
use crate::frontend::input::{button_for, map_key, HostKey};
use crate::frontend::palette::{classic_green, is_classic_green, Palette};
use crate::frontend::renderer::{rgba_byte, shade_to_rgba};
use crate::frontend::EmulatorResult;
use crate::gameboy::{frame, DMG};
use crate::ppu::{SCREEN_HEIGHT, SCREEN_WIDTH};
use crate::registers::Registers;

verus! {

/// The cartridge after a save file is restored into it: only when it has
/// battery RAM of exactly the file's size.
pub open spec fn restored(cartridge: CartridgeKind, save_data: Option<Seq<u8>>) -> CartridgeKind {
    match save_data {
        Some(data) => match cartridge.battery_ram() {
            Some(ram) => if ram.len() == data.len() {
                cartridge.save_loaded(data)
            } else {
                cartridge
            },
            None => cartridge,
        },
        None => cartridge,
    }
}

/// The save data a result carries matches the cartridge's battery RAM.
pub open spec fn result_matches(result: EmulatorResult, d: DMG) -> bool {
    match result.save_data {
        Some(data) => d.board().cart().battery_ram() == Some(data@),
        None => d.board().cart().battery_ram() is None,
    }
}

/// The number of RGBA bytes in a frame.
pub open spec fn frame_rgba_len() -> int {
    4 * (SCREEN_WIDTH * SCREEN_HEIGHT) as int
}

/// What a key event does to a session.
pub enum KeyOutcome {
    /// The session goes on.
    Continue,
    /// The user asked to quit; here is what to persist.
    Quit(EmulatorResult),
}

/// A running emulator with the palette it renders in.
pub struct EmulatorSession {
    dmg: DMG,
    palette: Palette,
}

impl EmulatorSession {
    pub closed spec fn machine(&self) -> DMG {
        self.dmg
    }

    pub closed spec fn colors(&self) -> Palette {
        self.palette
    }

    /// A session on `cartridge`: run from `boot_rom` when given, otherwise
    /// from the post-boot state; battery RAM restored from `save_data`.
    pub fn new(cartridge: CartridgeKind, boot_rom: Option<Vec<u8>>, save_data: Option<Vec<u8>>) -> (s: EmulatorSession)
        ensures
            s.machine().wf(),
            is_classic_green(s.colors()),
            boot_rom is None ==> s.machine().processor() == CPU::initial(Registers::post_boot()),
            boot_rom is Some ==> s.machine().processor() == CPU::initial(Registers::power_on()),
            s.machine().board().cart() == restored(
                cartridge,
                match save_data {
                    Some(d) => Some(d@),
                    None => None,
                },
            ),
            s.machine().board().serial_port().sent() == Seq::<u8>::empty(),
    {
        let mut dmg = match boot_rom {
            Some(rom) => DMG::new_with_boot_rom(cartridge, rom),
            None => DMG::new(cartridge),
        };
        if let Some(save) = &save_data {
            dmg.load_save_data(save.as_slice());
        }
        EmulatorSession { dmg, palette: classic_green() }
    }

    /// The battery RAM to persist.
    pub fn result(&self) -> (r: EmulatorResult)
        ensures
            result_matches(r, self.machine()),
    {
        let save_data = match self.dmg.save_data() {
            Some(d) => Some(vstd::slice::slice_to_vec(d)),
            None => None,
        };
        EmulatorResult { save_data }
    }

    /// A key went down (`pressed`) or up.  Escape pressed ends the session;
    /// a mapped key presses or releases its button; other keys do nothing.
    pub fn handle_key(&mut self, key: HostKey, pressed: bool) -> (outcome: KeyOutcome)
        requires
            old(self).machine().wf(),
        ensures
            final(self).machine().wf(),
            final(self).colors() == old(self).colors(),
            final(self).machine().processor() == old(self).machine().processor(),
            key == HostKey::Escape && pressed ==> (outcome matches KeyOutcome::Quit(r) && result_matches(r, old(self).machine())
                && final(self).machine() == old(self).machine()),
            !(key == HostKey::Escape && pressed) ==> outcome is Continue,
            !(key == HostKey::Escape && pressed) ==> match button_for(key) {
                Some(b) => if pressed {
                    final(self).machine().board().pad() == old(self).machine().board().pad().pressed(b)
                } else {
                    final(self).machine().board().pad() == old(self).machine().board().pad().released(b)
                },
                None => final(self).machine() == old(self).machine(),
            },
    {
        if key == HostKey::Escape && pressed {
            return KeyOutcome::Quit(self.result());
        }
        if let Some(button) = map_key(key) {
            if pressed {
                self.dmg.press(button);
            } else {
                self.dmg.release(button);
            }
        }
        KeyOutcome::Continue
    }

    /// Runs one frame, pushes its audio into `audio`, and converts the new
    /// framebuffer into `rgba`.
    pub fn run_frame<S: AudioSink>(&mut self, audio: &mut S, rgba: &mut [u8])
        requires
            old(self).machine().wf(),
            old(rgba)@.len() == frame_rgba_len(),
        ensures
            final(self).machine().wf(),
            final(self).colors() == old(self).colors(),
            final(self).machine().processor() == frame(
                old(self).machine().processor(),
                old(self).machine().board(),
            ).0,
            final(self).machine().board() == frame(
                old(self).machine().processor(),
                old(self).machine().board(),
            ).1.with_audio_drained(),
            final(audio).received(
                *old(audio),
                frame(old(self).machine().processor(), old(self).machine().board()).1.audio().queued(),
            ),
            final(rgba)@.len() == old(rgba)@.len(),
            forall|k: int|
                0 <= k < frame_rgba_len() ==> #[trigger] final(rgba)@[k] == rgba_byte(
                    final(self).machine().board().video().framebuffer@,
                    final(self).colors(),
                    k,
                ),
    {
        self.dmg.step_frame();
        let samples = self.dmg.drain_samples();
        audio.push_samples(samples.as_slice());
        let shades = self.dmg.framebuffer();
        shade_to_rgba(shades, &self.palette, rgba);
    }
}

} // verus!
