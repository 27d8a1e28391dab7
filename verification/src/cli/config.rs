//! Run configuration: boot and serial modes, the frame limit, and the
//! conversion of what the argument parser matched into a [`RunConfig`].
use vstd::prelude::*;
use crate::text::{chars_of, same_text};

verus! {

/// Selects the CPU/boot initialization path used to construct `DMG`.
#[derive(Debug, Clone, Copy, PartialEq, Eq, Structural)]
pub enum BootMode {
    Cold,
    PostBios,
}

impl Default for BootMode {
    fn default() -> (mode: BootMode)
        ensures
            mode == BootMode::PostBios,
    {
        BootMode::PostBios
    }
}

/// The command-line name of a boot mode.
pub open spec fn boot_mode_name(mode: BootMode) -> Seq<char> {
    match mode {
        BootMode::Cold => "cold"@,
        BootMode::PostBios => "post-bios"@,
    }
}

/// The boot mode a command-line value names, if any.
pub open spec fn boot_mode_named(value: Seq<char>) -> Option<BootMode> {
    if value == "cold"@ {
        Some(BootMode::Cold)
    } else if value == "post-bios"@ {
        Some(BootMode::PostBios)
    } else {
        None
    }
}

impl BootMode {
    pub fn from_cli_value(value: &str) -> (mode: Option<BootMode>)
        ensures
            mode == boot_mode_named(value@),
    {
        if same_text(value, "cold") {
            Some(BootMode::Cold)
        } else if same_text(value, "post-bios") {
            Some(BootMode::PostBios)
        } else {
            None
        }
    }

    pub fn as_str(&self) -> (name: &'static str)
        ensures
            name@ == boot_mode_name(*self),
    {
        match self {
            BootMode::Cold => "cold",
            BootMode::PostBios => "post-bios",
        }
    }

    /// The mode as it is written on the command line.
    pub fn to_string(&self) -> (name: String)
        ensures
            name@ == boot_mode_name(*self),
    {
        String::from_str(self.as_str())
    }
}

/// A boot mode's command-line name reads back as that mode.
pub proof fn lemma_boot_mode_name_round_trip(mode: BootMode)
    ensures
        boot_mode_named(boot_mode_name(mode)) == Some(mode),
{
    reveal_strlit("cold");
    reveal_strlit("post-bios");
    assert("cold"@.len() != "post-bios"@.len());
}

/// Controls how serial output is exposed to the host terminal.
#[derive(Debug, Clone, Copy, PartialEq, Eq, Structural)]
pub enum SerialMode {
    Off,
    Live,
    Final,
}

impl Default for SerialMode {
    fn default() -> (mode: SerialMode)
        ensures
            mode == SerialMode::Off,
    {
        SerialMode::Off
    }
}

/// The command-line name of a serial mode.
pub open spec fn serial_mode_name(mode: SerialMode) -> Seq<char> {
    match mode {
        SerialMode::Off => "off"@,
        SerialMode::Live => "live"@,
        SerialMode::Final => "final"@,
    }
}

/// The serial mode a command-line value names, if any.
pub open spec fn serial_mode_named(value: Seq<char>) -> Option<SerialMode> {
    if value == "off"@ {
        Some(SerialMode::Off)
    } else if value == "live"@ {
        Some(SerialMode::Live)
    } else if value == "final"@ {
        Some(SerialMode::Final)
    } else {
        None
    }
}

impl SerialMode {
    pub fn from_cli_value(value: &str) -> (mode: Option<SerialMode>)
        ensures
            mode == serial_mode_named(value@),
    {
        if same_text(value, "off") {
            Some(SerialMode::Off)
        } else if same_text(value, "live") {
            Some(SerialMode::Live)
        } else if same_text(value, "final") {
            Some(SerialMode::Final)
        } else {
            None
        }
    }

    pub fn as_str(&self) -> (name: &'static str)
        ensures
            name@ == serial_mode_name(*self),
    {
        match self {
            SerialMode::Off => "off",
            SerialMode::Live => "live",
            SerialMode::Final => "final",
        }
    }

    /// The mode as it is written on the command line.
    pub fn to_string(&self) -> (name: String)
        ensures
            name@ == serial_mode_name(*self),
    {
        String::from_str(self.as_str())
    }
}

/// A serial mode's command-line name reads back as that mode.
pub proof fn lemma_serial_mode_name_round_trip(mode: SerialMode)
    ensures
        serial_mode_named(serial_mode_name(mode)) == Some(mode),
{
    reveal_strlit("off");
    reveal_strlit("live");
    reveal_strlit("final");
    assert("off"@.len() != "live"@.len());
    assert("off"@.len() != "final"@.len());
    assert("live"@.len() != "final"@.len());
}

/// A number of frames to run, never zero.
#[derive(Debug, Clone, Copy, PartialEq, Eq, Structural)]
pub struct FrameLimit {
    value: u64,
}

impl FrameLimit {
    #[verifier::type_invariant]
    spec fn is_positive(self) -> bool {
        self.value >= 1
    }

    /// The number of frames.
    pub closed spec fn count(self) -> u64 {
        self.value
    }

    /// A limit of `value` frames, or `None` for zero.
    pub fn new(value: u64) -> (limit: Option<FrameLimit>)
        ensures
            match limit {
                Some(l) => value >= 1 && l.count() == value,
                None => value == 0,
            },
    {
        if value == 0 {
            None
        } else {
            Some(FrameLimit { value })
        }
    }

    pub fn get(&self) -> (value: u64)
        ensures
            value == self.count(),
            value >= 1,
    {
        proof {
            use_type_invariant(self);
        }
        self.value
    }
}

/// The frame limit an optional `--frames` value gives (zero gives none).
pub open spec fn frame_limit_of(frames: Option<u64>) -> Option<u64> {
    match frames {
        Some(v) => if v >= 1 { Some(v) } else { None },
        None => None,
    }
}

/// The count of an optional frame limit.
pub open spec fn limit_count(limit: Option<FrameLimit>) -> Option<u64> {
    match limit {
        Some(l) => Some(l.count()),
        None => None,
    }
}

/// Immutable runtime configuration for the command-line host.
#[derive(Debug, Clone)]
pub struct RunConfig {
    pub rom_path: String,
    pub frame_limit: Option<FrameLimit>,
    pub boot_mode: BootMode,
    pub serial_mode: SerialMode,
    pub quiet: bool,
    pub trace: bool,
}

/// Top-level CLI request derived from parsed user arguments.
#[derive(Debug, Clone)]
pub enum CliRequest {
    Run(RunConfig),
    Help(String),
    Version(String),
}

/// User-facing CLI parsing or validation failure.
#[derive(Debug, Clone)]
pub struct ConfigError {
    message: String,
}

impl ConfigError {
    /// The message shown to the user.
    pub closed spec fn text(&self) -> Seq<char> {
        self.message@
    }

    pub fn new(message: String) -> (e: ConfigError)
        ensures
            e.text() == message@,
    {
        ConfigError { message }
    }

    pub fn to_string(&self) -> (text: String)
        ensures
            text@ == self.text(),
    {
        self.message.clone()
    }
}

/// What the argument parser matched, as plain values: the ROM path, the
/// `--frames`, `--boot` and `--serial` values, and the two flags.
#[derive(Debug, Clone)]
pub struct ParsedArguments {
    pub rom_path: Option<String>,
    pub frames: Option<u64>,
    pub boot: Option<String>,
    pub serial: Option<String>,
    pub quiet: bool,
    pub trace: bool,
}

/// How the argument parser ended: with matches, by showing help or the
/// version, or by rejecting the arguments with a message.
#[derive(Debug, Clone)]
pub enum ParseOutcome {
    Matched(ParsedArguments),
    HelpShown(String),
    VersionShown(String),
    Rejected(String),
}

/// The option's value, if given, read as a boot mode.
pub open spec fn boot_choice(value: Option<String>) -> Option<BootMode> {
    match value {
        Some(v) => boot_mode_named(v@),
        None => None,
    }
}

/// The option's value, if given, read as a serial mode.
pub open spec fn serial_choice(value: Option<String>) -> Option<SerialMode> {
    match value {
        Some(v) => serial_mode_named(v@),
        None => None,
    }
}

/// Builds the run configuration from the matched arguments.  The ROM path
/// is required and the two modes must name known modes; a zero frame count
/// means no limit.
pub fn run_config_from_matches(matches: ParsedArguments) -> (r: Result<RunConfig, ConfigError>)
    ensures
        matches.rom_path is None ==> (r matches Err(e) && e.text()
            == "missing required ROM path argument (<ROM_PATH>)"@),
        matches.rom_path is Some && boot_choice(matches.boot) is None ==> (r matches Err(e)
            && e.text() == "invalid boot mode"@),
        matches.rom_path is Some && boot_choice(matches.boot) is Some && serial_choice(
            matches.serial,
        ) is None ==> (r matches Err(e) && e.text() == "invalid serial mode"@),
        matches.rom_path is Some && boot_choice(matches.boot) is Some && serial_choice(
            matches.serial,
        ) is Some ==> (r matches Ok(c) && c.rom_path@ == matches.rom_path->0@ && limit_count(
            c.frame_limit,
        ) == frame_limit_of(matches.frames) && Some(c.boot_mode) == boot_choice(matches.boot)
            && Some(c.serial_mode) == serial_choice(matches.serial) && c.quiet == matches.quiet
            && c.trace == matches.trace),
{
    let rom_path = match matches.rom_path {
        Some(p) => p,
        None => {
            return Err(
                ConfigError::new(
                    String::from_str("missing required ROM path argument (<ROM_PATH>)"),
                ),
            );
        },
    };
    let frame_limit = match matches.frames {
        Some(v) => FrameLimit::new(v),
        None => None,
    };
    let boot_mode = match &matches.boot {
        Some(v) => BootMode::from_cli_value(v.as_str()),
        None => None,
    };
    let boot_mode = match boot_mode {
        Some(m) => m,
        None => {
            return Err(ConfigError::new(String::from_str("invalid boot mode")));
        },
    };
    let serial_mode = match &matches.serial {
        Some(v) => SerialMode::from_cli_value(v.as_str()),
        None => None,
    };
    let serial_mode = match serial_mode {
        Some(m) => m,
        None => {
            return Err(ConfigError::new(String::from_str("invalid serial mode")));
        },
    };
    Ok(
        RunConfig {
            rom_path,
            frame_limit,
            boot_mode,
            serial_mode,
            quiet: matches.quiet,
            trace: matches.trace,
        },
    )
}

/// The request the parser's outcome amounts to: help and version text pass
/// through, a rejection becomes the error, and matches become a run.
pub fn cli_request_from_outcome(outcome: ParseOutcome) -> (r: Result<CliRequest, ConfigError>)
    ensures
        match outcome {
            ParseOutcome::HelpShown(t) => r matches Ok(CliRequest::Help(h)) && h@ == t@,
            ParseOutcome::VersionShown(t) => r matches Ok(CliRequest::Version(v)) && v@ == t@,
            ParseOutcome::Rejected(t) => r matches Err(e) && e.text() == t@,
            ParseOutcome::Matched(m) => match r {
                Ok(CliRequest::Run(c)) => m.rom_path is Some && boot_choice(m.boot) is Some
                    && serial_choice(m.serial) is Some && c.rom_path@ == m.rom_path->0@
                    && limit_count(c.frame_limit) == frame_limit_of(m.frames) && Some(c.boot_mode)
                    == boot_choice(m.boot) && Some(c.serial_mode) == serial_choice(m.serial)
                    && c.quiet == m.quiet && c.trace == m.trace,
                Ok(_) => false,
                Err(_) => m.rom_path is None || boot_choice(m.boot) is None || serial_choice(
                    m.serial,
                ) is None,
            },
        },
{
    match outcome {
        ParseOutcome::Matched(m) => match run_config_from_matches(m) {
            Ok(c) => Ok(CliRequest::Run(c)),
            Err(e) => Err(e),
        },
        ParseOutcome::HelpShown(t) => Ok(CliRequest::Help(t)),
        ParseOutcome::VersionShown(t) => Ok(CliRequest::Version(t)),
        ParseOutcome::Rejected(t) => Err(ConfigError::new(t)),
    }
}

/// The run configuration a request carries; help and version text come
/// back as the error, as `RunConfig::parse_cli_args` reports them.
pub fn run_config_from_request(request: CliRequest) -> (r: Result<RunConfig, ConfigError>)
    ensures
        match request {
            CliRequest::Run(c) => r matches Ok(d) && d.rom_path@ == c.rom_path@ && d.frame_limit
                == c.frame_limit && d.boot_mode == c.boot_mode && d.serial_mode == c.serial_mode
                && d.quiet == c.quiet && d.trace == c.trace,
            CliRequest::Help(t) => r matches Err(e) && e.text() == t@,
            CliRequest::Version(t) => r matches Err(e) && e.text() == t@,
        },
{
    match request {
        CliRequest::Run(c) => Ok(c),
        CliRequest::Help(t) => Err(ConfigError::new(t)),
        CliRequest::Version(t) => Err(ConfigError::new(t)),
    }
}

/// A decimal digit character.
pub open spec fn is_decimal_digit(c: char) -> bool {
    '0' <= c && c <= '9'
}

/// The number a string of decimal digits denotes.
pub open spec fn digits_value(s: Seq<char>) -> nat
    decreases s.len(),
{
    if s.len() == 0 {
        0
    } else {
        digits_value(s.drop_last()) * 10 + ((s.last() as int) - 48) as nat
    }
}

/// The digits after an optional leading `+`.
pub open spec fn unsigned_part(s: Seq<char>) -> Seq<char> {
    if s.len() > 0 && s[0] == '+' {
        s.drop_first()
    } else {
        s
    }
}

/// What `str::parse::<u64>` makes of a text: an optional `+`, then one or
/// more decimal digits whose value fits in 64 bits.
pub open spec fn parsed_u64(s: Seq<char>) -> Option<u64> {
    let d = unsigned_part(s);
    if d.len() > 0 && (forall|i: int| 0 <= i < d.len() ==> is_decimal_digit(#[trigger] d[i]))
        && digits_value(d) <= u64::MAX {
        Some(digits_value(d) as u64)
    } else {
        None
    }
}

proof fn lemma_digits_value_grows(s: Seq<char>, k: int)
    requires
        0 <= k <= s.len(),
        forall|i: int| 0 <= i < s.len() ==> is_decimal_digit(#[trigger] s[i]),
    ensures
        digits_value(s.take(k)) <= digits_value(s),
    decreases s.len(),
{
    if k < s.len() {
        assert(s.drop_last().take(k) =~= s.take(k));
        lemma_digits_value_grows(s.drop_last(), k);
    } else {
        assert(s.take(k) =~= s);
    }
}

/// Parses the `--frames` value: a positive decimal count.
pub fn parse_frame_limit(raw: &str) -> (r: Result<u64, String>)
    ensures
        match parsed_u64(raw@) {
            None => r matches Err(m) && m@ == "expected a positive integer"@,
            Some(v) => if v == 0 {
                r matches Err(m) && m@ == "expected a value >= 1"@
            } else {
                r == Ok::<u64, String>(v)
            },
        },
{
    let c = chars_of(raw);
    let start: usize = if c.len() > 0 && c[0] == '+' { 1 } else { 0 };
    let ghost d = unsigned_part(raw@);
    assert(d =~= c@.subrange(start as int, c@.len() as int));
    if start == c.len() {
        return Err(String::from_str("expected a positive integer"));
    }
    let mut value: u64 = 0;
    let mut i: usize = start;
    while i < c.len()
        invariant
            c@ == raw@,
            start <= i <= c.len(),
            d == c@.subrange(start as int, c@.len() as int),
            d == unsigned_part(raw@),
            forall|k: int| start <= k < i ==> is_decimal_digit(#[trigger] c@[k]),
            value == digits_value(c@.subrange(start as int, i as int)),
        decreases c.len() - i,
    {
        let ch = c[i];
        if !('0' <= ch && ch <= '9') {
            proof {
                assert(d[i - start] == ch);
                assert(!is_decimal_digit(d[i - start]));
                assert(parsed_u64(raw@) is None);
            }
            return Err(String::from_str("expected a positive integer"));
        }
        let digit = (ch as u32 - 48) as u64;
        let ghost prefix = c@.subrange(start as int, i + 1);
        proof {
            assert(prefix.drop_last() =~= c@.subrange(start as int, i as int));
        }
        let grown = match value.checked_mul(10) {
            Some(t) => t.checked_add(digit),
            None => None,
        };
        match grown {
            Some(v) => {
                value = v;
            },
            None => {
                proof {
                    assert(prefix.last() == ch);
                    assert(digits_value(prefix) == value * 10 + digit);
                    assert(digits_value(prefix) > u64::MAX);
                    if forall|k: int| 0 <= k < d.len() ==> is_decimal_digit(#[trigger] d[k]) {
                        assert(d.take(i + 1 - start) =~= prefix);
                        lemma_digits_value_grows(d, i + 1 - start);
                    } else {
                        let k = choose|k: int| 0 <= k < d.len() && !is_decimal_digit(#[trigger] d[k]);
                        assert(d[k] == d[k]);
                    }
                    assert(parsed_u64(raw@) is None);
                }
                return Err(String::from_str("expected a positive integer"));
            },
        }
        i = i + 1;
    }
    proof {
        assert(c@.subrange(start as int, i as int) =~= d);
        assert forall|k: int| 0 <= k < d.len() implies is_decimal_digit(#[trigger] d[k]) by {
            assert(d[k] == c@[start + k]);
        }
    }
    if value == 0 {
        return Err(String::from_str("expected a value >= 1"));
    }
    Ok(value)
}

} // verus!
