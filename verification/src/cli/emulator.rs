//! Construction of the emulator for the selected boot mode.
use vstd::prelude::*;
use crate::cartridge::CartridgeKind;
use crate::cli::config::BootMode;
use crate::cli::rom::LoadedRom;
use crate::cpu::CPU;
use crate::gameboy::DMG;
use crate::registers::Registers;
use crate::timer::Timer;

verus! {

/// The `DMG` constructor a boot mode selects: `cold` -> `DMG::new`,
/// `post-bios` -> `DMG::new_post_bios`.
#[derive(Debug, Clone, Copy, PartialEq, Eq, Structural)]
pub enum BootStrategy {
    Cold,
    PostBios,
}

pub open spec fn strategy_for(mode: BootMode) -> BootStrategy {
    match mode {
        BootMode::Cold => BootStrategy::Cold,
        BootMode::PostBios => BootStrategy::PostBios,
    }
}

/// The name of the constructor a strategy calls.
pub open spec fn constructor_of(strategy: BootStrategy) -> Seq<char> {
    match strategy {
        BootStrategy::Cold => "DMG::new"@,
        BootStrategy::PostBios => "DMG::new_post_bios"@,
    }
}

/// A just-built DMG holding `cartridge`: the CPU and timer in their
/// post-boot state and nothing sent over the serial port yet.
pub open spec fn freshly_built(d: DMG, cartridge: CartridgeKind) -> bool {
    &&& d.wf()
    &&& d.processor() == CPU::initial(Registers::post_boot())
    &&& d.board().cart() == cartridge
    &&& d.board().clock() == Timer::post_boot()
    &&& d.board().serial_port().sent() == Seq::<u8>::empty()
}

impl BootStrategy {
    pub fn from_boot_mode(boot_mode: BootMode) -> (s: BootStrategy)
        ensures
            s == strategy_for(boot_mode),
    {
        match boot_mode {
            BootMode::Cold => BootStrategy::Cold,
            BootMode::PostBios => BootStrategy::PostBios,
        }
    }

    pub fn construct(self, cartridge: CartridgeKind) -> (d: DMG)
        ensures
            freshly_built(d, cartridge),
    {
        match self {
            BootStrategy::Cold => DMG::new(cartridge),
            BootStrategy::PostBios => DMG::new_post_bios(cartridge),
        }
    }

    pub fn constructor_name(self) -> (name: &'static str)
        ensures
            name@ == constructor_of(self),
    {
        match self {
            BootStrategy::Cold => "DMG::new",
            BootStrategy::PostBios => "DMG::new_post_bios",
        }
    }
}

/// Constructs a `DMG` from a parsed ROM and the selected boot mode.
pub fn construct_gameboy(boot_mode: BootMode, loaded_rom: LoadedRom) -> (d: DMG)
    ensures
        freshly_built(d, loaded_rom.cart()),
{
    let cartridge = loaded_rom.into_cartridge();
    BootStrategy::from_boot_mode(boot_mode).construct(cartridge)
}

} // verus!
