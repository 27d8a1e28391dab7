# rgb

A Game Boy (DMG) emulator core, written in Verus: each module states what
it does as `requires`/`ensures` contracts over mathematical models, and the
verifier checks the code against them.

## Layout

- `src/` — the verified library
  - `registers`, `isa`, `opcode`, `cpu_spec`, `cpu` — the SM83 CPU: every
    instruction as a spec function of the state and the bus, and the
    executable CPU proved to follow it (cycle counts included).  The clocked
    hardware advances one machine cycle after each bus access of an
    instruction, then by its internal delay cycles.
  - `memory`, `mmu` — the bus and the memory map, with work/high RAM, I/O
    registers, OAM DMA and the boot ROM overlay.  OAM DMA is not an
    instantaneous copy: after a one-cycle start-up delay it copies one byte
    per machine cycle (161 machine cycles in all); the CPU bus lockout during
    the transfer is not modelled.
  - `timer`, `ppu`, `apu`, `serial`, `input` — the devices.
  - `cartridge` — header parsing and the ROM-only, MBC1, MBC3 and MBC5
    mappers, with battery-backed RAM.
  - `gameboy` — the `DMG`: CPU plus bus, run frame by frame.
  - `cli` — the headless host's configuration, errors, ROM loading, startup
    summary and frame-by-frame runner.
  - `frontend` — palettes, framebuffer conversion, scaling, key mapping and
    an emulator session as a desktop shell drives it.
  - `text`, `bytes`, `log` — small helpers (decimal/hex formatting, UTF-8
    decoding, zeroed arrays, and the append-only log that holds the serial
    output and the audio samples without a size cap).
- `app/main.rs` — the `rgb_cli` binary: argument parsing with clap, file
  reads and terminal output around the library.
- `tests/` — executable tests on concrete values.

Laws that span several operations are stated as public proof functions
(`lemma_*`), for instance that a word pushed on the stack pops off
unchanged, that an instruction never makes more bus accesses than it has
machine cycles, that `DAA` after a BCD addition yields the decimal sum, that a
cartridge RAM write reads back, and that live serial output neither drops
nor repeats bytes.
