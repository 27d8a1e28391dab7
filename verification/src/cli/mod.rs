//! The headless command-line host: run configuration, errors, ROM loading,
//! the frame-by-frame runner and the startup checks and summary.  Argument
//! parsing, file reads and terminal output are the binary's business;
//! everything they decide on is here.
pub mod config;
pub mod emulator;
pub mod error;
pub mod rom;
pub mod runner;
pub mod startup;
pub mod trace;
