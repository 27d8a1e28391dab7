use rgb::cartridge::{CartridgeError, MapperKind};
use rgb::cli::config::{
    cli_request_from_outcome, parse_frame_limit, run_config_from_matches, run_config_from_request,
    BootMode, CliRequest, ConfigError, FrameLimit, ParseOutcome, ParsedArguments, RunConfig,
    SerialMode,
};
use rgb::cli::emulator::{construct_gameboy, BootStrategy};
use rgb::cli::error::{CliError, CliErrorKind, CliExitCode};
use rgb::cli::rom::{mapper_label, LoadedRom};
use rgb::cli::runner::{
    ExitConditions, LiveSerialPassthrough, Runner, SerialVerdict, SerialVerdictCondition,
    StopReason, LIVE_SERIAL_PARTIAL_FLUSH_BYTE_THRESHOLD, LIVE_SERIAL_PARTIAL_FLUSH_INTERVAL_FRAMES,
};
use rgb::cli::startup::{
    build_startup_summary, ensure_program_name_is_present, frame_limit_label, kibibytes,
    validate_feature_gates,
};
use rgb::cli::trace::setup_trace;

fn base_test_rom(title: &str, cartridge_type: u8, rom_size_code: u8, ram_size_code: u8) -> Vec<u8> {
    let mut bytes = vec![0; 0x8000];
    let title_bytes = title.as_bytes();
    let title_len = title_bytes.len().min(15);
    bytes[0x134..0x134 + title_len].copy_from_slice(&title_bytes[..title_len]);
    bytes[0x147] = cartridge_type;
    bytes[0x148] = rom_size_code;
    bytes[0x149] = ram_size_code;
    bytes
}

fn run_config(path: &str, frame_limit: Option<FrameLimit>, serial_mode: SerialMode) -> RunConfig {
    RunConfig {
        rom_path: path.to_string(),
        frame_limit,
        boot_mode: BootMode::PostBios,
        serial_mode,
        quiet: true,
        trace: false,
    }
}

fn matched(rom: Option<&str>, frames: Option<u64>, boot: &str, serial: &str) -> ParsedArguments {
    ParsedArguments {
        rom_path: rom.map(|r| r.to_string()),
        frames,
        boot: Some(boot.to_string()),
        serial: Some(serial.to_string()),
        quiet: false,
        trace: false,
    }
}

#[test]
fn boot_mode_maps_to_the_expected_dmg_constructor() {
    assert_eq!(
        BootStrategy::from_boot_mode(BootMode::Cold).constructor_name(),
        "DMG::new"
    );
    assert_eq!(
        BootStrategy::from_boot_mode(BootMode::PostBios).constructor_name(),
        "DMG::new_post_bios"
    );
}

#[test]
fn constructor_supports_both_boot_modes_for_valid_roms() {
    for boot_mode in [BootMode::Cold, BootMode::PostBios] {
        let loaded_rom = LoadedRom::from_bytes("boot.gb", base_test_rom("BOOTMAP", 0x00, 0x00, 0x00))
            .expect("expected ROM to load");
        let gameboy = construct_gameboy(boot_mode, loaded_rom);
        assert_eq!(gameboy.serial_output(), "");
        assert_eq!(gameboy.cpu_pc(), 0x0100);
    }
}

#[test]
fn runtime_setup_errors_map_to_runtime_exit_code() {
    let error = CliError::runtime_setup("bootstrapping failed");
    assert_eq!(error.kind(), CliErrorKind::Runtime);
    assert_eq!(error.exit_code(), 1);
}

#[test]
fn trace_feature_error_has_clear_message() {
    let error = CliError::TraceFeatureRequired;
    assert!(error.to_string().contains("Rebuild with `--features trace`"));
}

#[test]
fn args_errors_map_to_usage_exit_code() {
    let parse_error = ConfigError::new("unexpected argument '--unknown' found".to_string());
    let error = CliError::from(parse_error);
    assert_eq!(error.kind(), CliErrorKind::Usage);
    assert_eq!(error.exit_code(), 2);
    assert_eq!(error.to_string(), "unexpected argument '--unknown' found");
}

#[test]
fn exit_code_constants_match_process_conventions() {
    assert_eq!(CliExitCode::Success.as_i32(), 0);
    assert_eq!(CliExitCode::RuntimeFailure.as_i32(), 1);
    assert_eq!(CliExitCode::UsageFailure.as_i32(), 2);
}

#[test]
fn error_messages_read_as_the_variants_describe() {
    let io = CliError::io("reading ROM", "missing.gb", "No such file or directory".to_string());
    assert_eq!(io.kind(), CliErrorKind::Runtime);
    assert_eq!(
        io.to_string(),
        "I/O error while reading ROM 'missing.gb': No such file or directory"
    );
    let setup = CliError::runtime_setup("no window");
    assert_eq!(setup.to_string(), "runtime setup error: no window");
    let parse = CliError::rom_parse("small.gb", CartridgeError::RomTooSmall(12));
    assert_eq!(parse.exit_code(), 1);
    assert_eq!(
        parse.to_string(),
        "failed to parse ROM 'small.gb': ROM image too small (12 bytes)"
    );
}

#[test]
fn cartridge_error_messages_use_upper_case_hex() {
    assert_eq!(
        CartridgeError::UnsupportedCartridgeType(0x0A).to_string(),
        "cartridge type 0x0A is not supported"
    );
    assert_eq!(
        CartridgeError::UnsupportedRomSizeCode(0x52).to_string(),
        "ROM size code 0x52 is not supported"
    );
    assert_eq!(
        CartridgeError::UnsupportedRamSizeCode(0xFF).to_string(),
        "RAM size code 0xFF is not supported"
    );
    assert_eq!(
        CartridgeError::RomTooSmall(0).to_string(),
        "ROM image too small (0 bytes)"
    );
}

#[test]
fn exit_conditions_default_to_frame_limit_only() {
    let config = run_config("rom.gb", FrameLimit::new(60), SerialMode::Off);
    let conditions = ExitConditions::from_config(&config);

    assert_eq!(conditions.frame_limit, config.frame_limit);
    assert_eq!(conditions.serial_verdict, None);
}

#[test]
fn serial_verdict_condition_parses_blargg_style_output() {
    let condition = SerialVerdictCondition::BlarggPassFail;

    assert_eq!(condition.evaluate("01: Passed"), Some(SerialVerdict::Passed));
    assert_eq!(condition.evaluate("01: Failed"), Some(SerialVerdict::Failed));
    assert_eq!(condition.evaluate("Failed\nPassed"), Some(SerialVerdict::Failed));
    assert_eq!(condition.evaluate("still running"), None);
}

#[test]
fn serial_verdict_needs_the_whole_word() {
    let condition = SerialVerdictCondition::BlarggPassFail;
    assert_eq!(condition.evaluate("Pass"), None);
    assert_eq!(condition.evaluate(""), None);
    assert_eq!(condition.evaluate("xxPassedxx"), Some(SerialVerdict::Passed));
}

#[test]
fn live_passthrough_emits_only_new_complete_lines() {
    let mut passthrough = LiveSerialPassthrough::default();

    let first = passthrough.collect_lines(b"line one\nline");
    assert_eq!(first, vec![b"line one\n".to_vec()]);

    let second = passthrough.collect_lines(b"line one\nline two\n");
    assert_eq!(second, vec![b"line two\n".to_vec()]);

    let third = passthrough.collect_lines(b"line one\nline two\n");
    assert!(third.is_empty());
}

#[test]
fn live_passthrough_flushes_partial_lines_after_throttle_interval() {
    let mut passthrough = LiveSerialPassthrough::default();

    assert!(passthrough.collect_lines(b"partial").is_empty());

    for _ in 0..=LIVE_SERIAL_PARTIAL_FLUSH_INTERVAL_FRAMES {
        let emitted = passthrough.collect_lines(b"partial");
        if !emitted.is_empty() {
            assert_eq!(emitted, vec![b"partial\n".to_vec()]);
            return;
        }
    }

    panic!("expected throttled partial-line flush");
}

#[test]
fn live_passthrough_finalize_flushes_pending_partial_line() {
    let mut passthrough = LiveSerialPassthrough::default();

    assert!(passthrough.collect_lines(b"tail").is_empty());
    assert_eq!(passthrough.finalize(), Some(b"tail\n".to_vec()));
    assert_eq!(passthrough.finalize(), None);
}

#[test]
fn live_passthrough_flushes_long_partial_lines_at_once() {
    let mut passthrough = LiveSerialPassthrough::default();
    let long = vec![b'x'; LIVE_SERIAL_PARTIAL_FLUSH_BYTE_THRESHOLD];
    let emitted = passthrough.collect_lines(&long);
    let mut expected = long.clone();
    expected.push(b'\n');
    assert_eq!(emitted, vec![expected]);
}

#[test]
fn live_passthrough_splits_several_lines_in_one_frame() {
    let mut passthrough = LiveSerialPassthrough::default();
    let emitted = passthrough.collect_lines(b"a\nbc\n\nrest");
    assert_eq!(
        emitted,
        vec![b"a\n".to_vec(), b"bc\n".to_vec(), b"\n".to_vec()]
    );
    assert_eq!(passthrough.finalize(), Some(b"rest\n".to_vec()));
}

#[test]
fn live_passthrough_starts_over_when_the_buffer_shrinks() {
    let mut passthrough = LiveSerialPassthrough::default();
    assert_eq!(passthrough.collect_lines(b"abc\n"), vec![b"abc\n".to_vec()]);
    assert_eq!(passthrough.collect_lines(b"x\n"), vec![b"x\n".to_vec()]);
}

#[test]
fn setup_trace_is_noop_when_not_requested() {
    let result = setup_trace(false);
    assert!(result.is_ok());
}

#[test]
fn setup_trace_reports_feature_gating_error_without_trace_build() {
    let error = setup_trace(true).expect_err("expected feature gating error");
    assert_eq!(error.kind(), CliErrorKind::Runtime);
    assert!(error.to_string().contains("Rebuild with `--features trace`"));
}

#[test]
fn app_requires_program_name_argument() {
    let error = ensure_program_name_is_present(0).expect_err("expected an error for empty argv");
    assert_eq!(error.kind(), CliErrorKind::Runtime);
    assert_eq!(error.exit_code(), 1);
    assert!(ensure_program_name_is_present(1).is_ok());
}

#[test]
fn app_requires_user_rom_path_after_program_name() {
    let error = run_config_from_matches(matched(None, None, "post-bios", "off"))
        .expect_err("expected usage error");
    let error = CliError::from(error);
    assert_eq!(error.kind(), CliErrorKind::Usage);
    assert_eq!(error.exit_code(), 2);
    assert_eq!(
        error.to_string(),
        "missing required ROM path argument (<ROM_PATH>)"
    );
}

#[test]
fn app_rejects_trace_flag_without_trace_feature() {
    let mut config = run_config("rom.gb", None, SerialMode::Off);
    config.trace = true;
    let error = validate_feature_gates(&config).expect_err("expected trace feature-gate error");
    assert_eq!(error.kind(), CliErrorKind::Runtime);
    assert_eq!(error.exit_code(), 1);
    assert!(error.to_string().contains("Rebuild with `--features trace`"));
    config.trace = false;
    assert!(validate_feature_gates(&config).is_ok());
}

#[test]
fn app_exposes_typed_run_config_for_valid_invocation() {
    let mut values = matched(Some("rom.gb"), None, "cold", "final");
    values.quiet = true;
    let config = run_config_from_matches(values).expect("expected run config");
    assert_eq!(config.boot_mode, BootMode::Cold);
    assert_eq!(config.serial_mode, SerialMode::Final);
    assert!(config.quiet);
}

#[test]
fn defaults_apply_when_optional_flags_are_absent() {
    let config = run_config_from_matches(matched(Some("roms/tetris.gb"), None, "post-bios", "off"))
        .expect("expected config");
    assert_eq!(config.rom_path, "roms/tetris.gb");
    assert_eq!(config.frame_limit, None);
    assert_eq!(config.boot_mode, BootMode::PostBios);
    assert_eq!(config.serial_mode, SerialMode::Off);
    assert!(!config.quiet);
    assert!(!config.trace);
    assert_eq!(BootMode::default(), BootMode::PostBios);
    assert_eq!(SerialMode::default(), SerialMode::Off);
}

#[test]
fn run_config_keeps_all_supported_run_options() {
    let mut values = matched(Some("rom.gb"), Some(1440), "cold", "live");
    values.quiet = true;
    values.trace = true;
    let config = run_config_from_matches(values).expect("expected config");
    assert_eq!(config.rom_path, "rom.gb");
    assert_eq!(config.frame_limit, FrameLimit::new(1440));
    assert_eq!(config.frame_limit.map(|l| l.get()), Some(1440));
    assert_eq!(config.boot_mode, BootMode::Cold);
    assert_eq!(config.serial_mode, SerialMode::Live);
    assert!(config.quiet);
    assert!(config.trace);
}

#[test]
fn run_config_rejects_unknown_mode_names() {
    let boot = run_config_from_matches(matched(Some("rom.gb"), None, "fast", "off"))
        .expect_err("expected invalid boot mode");
    assert_eq!(boot.to_string(), "invalid boot mode");
    let serial = run_config_from_matches(matched(Some("rom.gb"), None, "cold", "stream"))
        .expect_err("expected invalid serial mode");
    assert_eq!(serial.to_string(), "invalid serial mode");
}

#[test]
fn zero_frames_means_no_limit() {
    let config = run_config_from_matches(matched(Some("rom.gb"), Some(0), "cold", "off"))
        .expect("expected config");
    assert_eq!(config.frame_limit, None);
    assert_eq!(FrameLimit::new(0), None);
}

#[test]
fn parser_rejects_invalid_frame_limit_values() {
    let zero = parse_frame_limit("0").expect_err("expected invalid frame value");
    assert!(zero.contains("expected a value >= 1"));

    let non_numeric = parse_frame_limit("abc").expect_err("expected invalid frame value");
    assert!(non_numeric.contains("expected a positive integer"));
}

#[test]
fn frame_limit_parsing_follows_unsigned_integer_syntax() {
    assert_eq!(parse_frame_limit("1440"), Ok(1440));
    assert_eq!(parse_frame_limit("+7"), Ok(7));
    assert_eq!(parse_frame_limit("18446744073709551615"), Ok(u64::MAX));
    assert_eq!(
        parse_frame_limit("18446744073709551616"),
        Err("expected a positive integer".to_string())
    );
    assert_eq!(parse_frame_limit(""), Err("expected a positive integer".to_string()));
    assert_eq!(parse_frame_limit("+"), Err("expected a positive integer".to_string()));
    assert_eq!(parse_frame_limit("-1"), Err("expected a positive integer".to_string()));
    assert_eq!(parse_frame_limit(" 5"), Err("expected a positive integer".to_string()));
    assert_eq!(parse_frame_limit("000"), Err("expected a value >= 1".to_string()));
}

#[test]
fn mode_names_round_trip() {
    for mode in [BootMode::Cold, BootMode::PostBios] {
        assert_eq!(BootMode::from_cli_value(mode.as_str()), Some(mode));
    }
    for mode in [SerialMode::Off, SerialMode::Live, SerialMode::Final] {
        assert_eq!(SerialMode::from_cli_value(&mode.to_string()), Some(mode));
    }
    assert_eq!(BootMode::from_cli_value("Cold"), None);
    assert_eq!(SerialMode::from_cli_value("stream"), None);
}

#[test]
fn app_parse_cli_request_returns_help_version_and_run_commands() {
    let help = cli_request_from_outcome(ParseOutcome::HelpShown("Usage: rgb_cli".to_string()))
        .expect("expected help request");
    assert!(matches!(help, CliRequest::Help(_)));

    let version = cli_request_from_outcome(ParseOutcome::VersionShown("rgb_cli 0.1.0".to_string()))
        .expect("expected version request");
    assert!(matches!(version, CliRequest::Version(_)));

    let run = cli_request_from_outcome(ParseOutcome::Matched(matched(
        Some("rom.gb"),
        None,
        "post-bios",
        "off",
    )))
    .expect("expected run request");
    assert!(matches!(run, CliRequest::Run(_)));

    let rejected = cli_request_from_outcome(ParseOutcome::Rejected("bad".to_string()))
        .expect_err("expected error");
    assert_eq!(rejected.to_string(), "bad");
}

#[test]
fn parse_cli_args_surfaces_help_text_as_config_error() {
    let error = run_config_from_request(CliRequest::Help("Usage: rgb_cli\nEXAMPLES:".to_string()))
        .expect_err("expected help text error");
    assert!(error.to_string().contains("Usage:"));
    assert!(error.to_string().contains("EXAMPLES:"));
}

#[test]
fn load_rom_reports_header_metadata() {
    let loaded = LoadedRom::from_bytes("tetris.gb", base_test_rom("TETRIS", 0x00, 0x00, 0x00))
        .expect("expected ROM to load");
    let metadata = loaded.metadata();

    assert_eq!(loaded.path(), "tetris.gb");
    assert_eq!(metadata.title, "TETRIS");
    assert_eq!(metadata.mapper, MapperKind::RomOnly);
    assert_eq!(metadata.rom_size_bytes, 32 * 1024);
    assert_eq!(metadata.ram_size_bytes, 0);
    assert_eq!(metadata.rom_banks, 2);
    assert_eq!(metadata.ram_banks, 0);
    assert_eq!(metadata.mapper_label(), "ROM-only");
    assert_eq!(metadata.display_title(), "TETRIS");
}

#[test]
fn untitled_roms_show_a_placeholder_title() {
    let loaded = LoadedRom::from_bytes("blank.gb", base_test_rom("", 0x00, 0x00, 0x00))
        .expect("expected ROM to load");
    assert_eq!(loaded.metadata().title, "");
    assert_eq!(loaded.metadata().display_title(), "<untitled>");
}

#[test]
fn mapper_labels_name_every_mapper() {
    assert_eq!(mapper_label(MapperKind::RomOnly), "ROM-only");
    assert_eq!(mapper_label(MapperKind::Mbc1), "MBC1");
    assert_eq!(mapper_label(MapperKind::Mbc3), "MBC3");
    assert_eq!(mapper_label(MapperKind::Mbc5), "MBC5");
}

#[test]
fn load_rom_maps_parse_failures_to_rom_parse_error() {
    let error = LoadedRom::from_bytes("bad.gb", base_test_rom("BADTYPE", 0xFF, 0x00, 0x00))
        .err()
        .expect("expected parse failure");

    assert_eq!(error.kind(), CliErrorKind::Runtime);
    match &error {
        CliError::RomParse { source, .. } => {
            assert!(matches!(source, CartridgeError::UnsupportedCartridgeType(0xFF)));
        }
        _ => panic!("expected ROM parse error"),
    }
    assert!(error.to_string().contains("failed to parse ROM"));
    assert!(error.to_string().contains("cartridge type 0xFF"));
}

#[test]
fn startup_summary_includes_rom_and_run_configuration_metadata() {
    let mut values = matched(Some("roms/tetris.gb"), Some(1440), "cold", "live");
    values.quiet = false;
    let config = run_config_from_matches(values).expect("expected valid run config");
    let loaded_rom = LoadedRom::from_bytes(&config.rom_path, base_test_rom("TETRIS", 0x00, 0x00, 0x00))
        .expect("expected ROM to load");

    let summary = build_startup_summary(&config, &loaded_rom).expect("expected summary");

    assert!(summary.contains(&format!("ROM: {}", config.rom_path)));
    assert!(summary.contains("title: TETRIS"));
    assert!(summary.contains("mapper: ROM-only"));
    assert!(summary.contains("size: 32 KiB ROM / 0 KiB RAM"));
    assert!(summary.contains("boot: cold"));
    assert!(summary.contains("frames: 1440"));
    assert!(summary.contains("serial: live"));
    assert!(summary.contains("trace: disabled"));
    assert_eq!(
        summary,
        "Run Start\nROM: roms/tetris.gb | title: TETRIS | mapper: ROM-only | size: 32 KiB ROM / 0 KiB RAM | boot: cold | frames: 1440 | serial: live | trace: disabled"
    );
}

#[test]
fn startup_summary_is_suppressed_in_quiet_mode() {
    let mut values = matched(Some("quiet.gb"), None, "post-bios", "off");
    values.quiet = true;
    let config = run_config_from_matches(values).expect("expected valid run config");
    let loaded_rom = LoadedRom::from_bytes("quiet.gb", base_test_rom("QUIET", 0x00, 0x00, 0x00))
        .expect("expected ROM to load");
    assert!(build_startup_summary(&config, &loaded_rom).is_none());
}

#[test]
fn startup_helpers_format_sizes_and_limits() {
    assert_eq!(kibibytes(32 * 1024), 32);
    assert_eq!(kibibytes(1023), 0);
    assert_eq!(frame_limit_label(None), "unbounded");
    assert_eq!(frame_limit_label(FrameLimit::new(60)), "60");
}

#[test]
fn runner_stops_at_configured_frame_limit() {
    let frame_limit = FrameLimit::new(2).expect("non-zero");
    let config = run_config("runloop.gb", Some(frame_limit), SerialMode::Off);
    let loaded_rom = LoadedRom::from_bytes("runloop.gb", base_test_rom("RUNLOOP", 0x00, 0x00, 0x00))
        .expect("load ROM");
    let gameboy = construct_gameboy(config.boot_mode, loaded_rom);
    let mut runner = Runner::new(config, gameboy)
        .with_serial_verdict_condition(SerialVerdictCondition::BlarggPassFail);

    let report = loop {
        let lines = runner.step_one_frame();
        assert!(lines.is_empty());
        if let Some(reason) = runner.evaluate_exit_conditions() {
            assert!(runner.live_serial_tail().is_none());
            assert!(runner.final_serial_output().is_none());
            break runner.build_report(reason);
        }
    };

    assert_eq!(report.frames_executed, frame_limit.get());
    assert_eq!(report.stop_reason, StopReason::FrameLimitReached { frame_limit });
    assert!(report.serial_output.is_empty());
}

#[test]
fn shutdown_block_names_frames_stop_reason_and_serial_bytes() {
    let loaded_rom = LoadedRom::from_bytes("stop.gb", base_test_rom("STOP", 0x00, 0x00, 0x00))
        .expect("expected ROM to load");
    let gameboy = construct_gameboy(BootMode::PostBios, loaded_rom);
    let mut config = run_config("stop.gb", FrameLimit::new(2), SerialMode::Off);
    config.quiet = false;
    let mut runner = Runner::new(config.clone(), gameboy);
    runner.step_one_frame();
    runner.step_one_frame();
    let reason = runner.evaluate_exit_conditions().expect("frame limit reached");
    let report = runner.build_report(reason);
    assert_eq!(
        runner.shutdown_summary(&report),
        Some(
            "Run Complete\nframes executed: 2\nstop reason: frame limit of 2 reached\nserial bytes: 0"
                .to_string()
        )
    );

    config.quiet = true;
    let loaded_rom = LoadedRom::from_bytes("stop.gb", base_test_rom("STOP", 0x00, 0x00, 0x00))
        .expect("expected ROM to load");
    let quiet_runner = Runner::new(config, construct_gameboy(BootMode::PostBios, loaded_rom));
    assert_eq!(quiet_runner.shutdown_summary(&report), None);
}
