//! The checks a run goes through before the emulator starts, and the
//! one-line startup summary.
use vstd::prelude::*;
use crate::cli::config::{
    boot_mode_name, serial_mode_name, FrameLimit, RunConfig,
};
use crate::cli::error::CliError;
use crate::cli::rom::{mapper_name, title_shown, LoadedRom};
use crate::text::{decimal_string, decimal_text};

verus! {

/// The process argument vector must at least hold the program name.
pub fn ensure_program_name_is_present(arg_count: usize) -> (r: Result<(), CliError>)
    ensures
        arg_count > 0 ==> r is Ok,
        arg_count == 0 ==> (r matches Err(CliError::RuntimeSetup(m)) && m@
            == "process argument vector was unexpectedly empty"@),
{
    if arg_count == 0 {
        return Err(CliError::runtime_setup("process argument vector was unexpectedly empty"));
    }
    Ok(())
}

/// A run may ask only for what this build has: `--trace` is refused.
pub fn validate_feature_gates(config: &RunConfig) -> (r: Result<(), CliError>)
    ensures
        !config.trace ==> r is Ok,
        config.trace ==> r matches Err(CliError::TraceFeatureRequired),
{
    if config.trace {
        return Err(CliError::TraceFeatureRequired);
    }
    Ok(())
}

/// Whole kibibytes in a byte count.
pub fn kibibytes(bytes: usize) -> (kib: usize)
    ensures
        kib == bytes / 1024,
{
    bytes / 1024
}

/// The frame limit as shown: its count, or `unbounded`.
pub open spec fn frame_limit_text(limit: Option<FrameLimit>) -> Seq<char> {
    match limit {
        Some(l) => decimal_text(l.count() as nat),
        None => "unbounded"@,
    }
}

pub fn frame_limit_label(frame_limit: Option<FrameLimit>) -> (label: String)
    ensures
        label@ == frame_limit_text(frame_limit),
{
    match frame_limit {
        Some(l) => decimal_string(l.get()),
        None => String::from_str("unbounded"),
    }
}

/// The startup block: a `Run Start` heading, then one line with the path,
/// title, mapper, sizes in KiB, boot mode, frame limit, serial mode and
/// whether tracing is on.
pub open spec fn summary_text(config: RunConfig, rom: LoadedRom) -> Seq<char> {
    let m = rom.meta();
    "Run Start\nROM: "@ + rom.path_text() + " | title: "@ + title_shown(m.title@) + " | mapper: "@
        + mapper_name(m.mapper) + " | size: "@ + decimal_text((m.rom_size_bytes / 1024) as nat)
        + " KiB ROM / "@ + decimal_text((m.ram_size_bytes / 1024) as nat) + " KiB RAM | boot: "@
        + boot_mode_name(config.boot_mode) + " | frames: "@ + frame_limit_text(config.frame_limit)
        + " | serial: "@ + serial_mode_name(config.serial_mode) + " | trace: "@ + (if config.trace {
        "enabled"@
    } else {
        "disabled"@
    })
}

/// The startup summary, or `None` in quiet mode.
pub fn build_startup_summary(config: &RunConfig, loaded_rom: &LoadedRom) -> (summary: Option<
    String,
>)
    ensures
        config.quiet ==> summary is None,
        !config.quiet ==> (summary matches Some(s) && s@ == summary_text(*config, *loaded_rom)),
{
    if config.quiet {
        return None;
    }
    let metadata = loaded_rom.metadata();
    let rom_size_kib = decimal_string(kibibytes(metadata.rom_size_bytes) as u64);
    let ram_size_kib = decimal_string(kibibytes(metadata.ram_size_bytes) as u64);
    let frame_limit = frame_limit_label(config.frame_limit);
    let trace_mode = if config.trace {
        "enabled"
    } else {
        "disabled"
    };
    let mut s = String::from_str("Run Start\nROM: ");
    s.append(loaded_rom.path());
    s.append(" | title: ");
    s.append(metadata.display_title());
    s.append(" | mapper: ");
    s.append(metadata.mapper_label());
    s.append(" | size: ");
    s.append(rom_size_kib.as_str());
    s.append(" KiB ROM / ");
    s.append(ram_size_kib.as_str());
    s.append(" KiB RAM | boot: ");
    s.append(config.boot_mode.as_str());
    s.append(" | frames: ");
    s.append(frame_limit.as_str());
    s.append(" | serial: ");
    s.append(config.serial_mode.as_str());
    s.append(" | trace: ");
    s.append(trace_mode);
    Some(s)
}

} // verus!
