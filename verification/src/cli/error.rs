//! Errors of the command-line host and the process exit codes they map to.
use vstd::prelude::*;
use crate::cartridge::{cartridge_error_text, CartridgeError};
use crate::cli::config::ConfigError;

verus! {

/// Process exit codes of the command-line host.
#[derive(Debug, Clone, Copy, PartialEq, Eq, Structural)]
pub enum CliExitCode {
    Success,
    RuntimeFailure,
    UsageFailure,
}

/// The number the process exits with.
pub open spec fn exit_code_value(code: CliExitCode) -> i32 {
    match code {
        CliExitCode::Success => 0,
        CliExitCode::RuntimeFailure => 1,
        CliExitCode::UsageFailure => 2,
    }
}

impl CliExitCode {
    pub fn as_i32(self) -> (code: i32)
        ensures
            code == exit_code_value(self),
    {
        match self {
            CliExitCode::Success => 0,
            CliExitCode::RuntimeFailure => 1,
            CliExitCode::UsageFailure => 2,
        }
    }
}

/// High-level category for user-facing CLI failures.
#[derive(Debug, Clone, Copy, PartialEq, Eq, Structural)]
pub enum CliErrorKind {
    /// Invalid invocation, missing arguments, or malformed option values.
    Usage,
    /// Runtime/setup failure while executing a valid invocation.
    Runtime,
}

/// Boundary error of the command-line host: argument failures, I/O
/// failures (with the I/O error's message), ROM parse failures, setup
/// failures, and a request for tracing that this build cannot serve.
#[derive(Debug, Clone)]
pub enum CliError {
    Args(ConfigError),
    Io { action: String, path: String, source: String },
    RomParse { path: String, source: CartridgeError },
    RuntimeSetup(String),
    TraceFeatureRequired,
}

/// The category of an error: only argument errors are usage errors.
pub open spec fn error_kind(e: CliError) -> CliErrorKind {
    match e {
        CliError::Args(_) => CliErrorKind::Usage,
        _ => CliErrorKind::Runtime,
    }
}

/// The exit code of a category.
pub open spec fn kind_exit_code(kind: CliErrorKind) -> CliExitCode {
    match kind {
        CliErrorKind::Usage => CliExitCode::UsageFailure,
        CliErrorKind::Runtime => CliExitCode::RuntimeFailure,
    }
}

/// What an error says, as its `Display` text.
pub open spec fn cli_error_text(e: CliError) -> Seq<char> {
    match e {
        CliError::Args(c) => c.text(),
        CliError::Io { action, path, source } => "I/O error while "@ + action@ + " '"@ + path@
            + "': "@ + source@,
        CliError::RomParse { path, source } => "failed to parse ROM '"@ + path@ + "': "@
            + cartridge_error_text(source),
        CliError::RuntimeSetup(m) => "runtime setup error: "@ + m@,
        CliError::TraceFeatureRequired => "--trace requires a trace-enabled build. Rebuild with `--features trace`."@,
    }
}

impl CliError {
    /// An I/O failure while doing `action` on `path`; `source` is the I/O
    /// error's message.
    pub fn io(action: &str, path: &str, source: String) -> (e: CliError)
        ensures
            e matches CliError::Io { action: a, path: p, source: s } && a@ == action@ && p@
                == path@ && s@ == source@,
    {
        CliError::Io { action: String::from_str(action), path: String::from_str(path), source }
    }

    pub fn rom_parse(path: &str, source: CartridgeError) -> (e: CliError)
        ensures
            e matches CliError::RomParse { path: p, source: s } && p@ == path@ && s == source,
    {
        CliError::RomParse { path: String::from_str(path), source }
    }

    pub fn runtime_setup(message: &str) -> (e: CliError)
        ensures
            e matches CliError::RuntimeSetup(m) && m@ == message@,
    {
        CliError::RuntimeSetup(String::from_str(message))
    }

    pub fn kind(&self) -> (kind: CliErrorKind)
        ensures
            kind == error_kind(*self),
    {
        match self {
            CliError::Args(_) => CliErrorKind::Usage,
            _ => CliErrorKind::Runtime,
        }
    }

    pub fn exit_code(&self) -> (code: i32)
        ensures
            code == exit_code_value(kind_exit_code(error_kind(*self))),
    {
        match self.kind() {
            CliErrorKind::Usage => CliExitCode::UsageFailure.as_i32(),
            CliErrorKind::Runtime => CliExitCode::RuntimeFailure.as_i32(),
        }
    }

    /// The error as a sentence for the user.
    pub fn to_string(&self) -> (text: String)
        ensures
            text@ == cli_error_text(*self),
    {
        match self {
            CliError::Args(c) => c.to_string(),
            CliError::Io { action, path, source } => {
                let mut text = String::from_str("I/O error while ");
                text.append(action.as_str());
                text.append(" '");
                text.append(path.as_str());
                text.append("': ");
                text.append(source.as_str());
                text
            },
            CliError::RomParse { path, source } => {
                let mut text = String::from_str("failed to parse ROM '");
                text.append(path.as_str());
                text.append("': ");
                let reason = source.to_string();
                text.append(reason.as_str());
                text
            },
            CliError::RuntimeSetup(m) => {
                let mut text = String::from_str("runtime setup error: ");
                text.append(m.as_str());
                text
            },
            CliError::TraceFeatureRequired => String::from_str(
                "--trace requires a trace-enabled build. Rebuild with `--features trace`.",
            ),
        }
    }
}

impl From<ConfigError> for CliError {
    fn from(e: ConfigError) -> (r: CliError) {
        CliError::Args(e)
    }
}

impl vstd::std_specs::convert::FromSpecImpl<ConfigError> for CliError {
    open spec fn obeys_from_spec() -> bool {
        true
    }

    open spec fn from_spec(v: ConfigError) -> CliError {
        CliError::Args(v)
    }
}

/// Exit codes follow the error's category: argument errors exit with 2,
/// every other error with 1, and no error exits with the success code 0.
pub proof fn lemma_exit_code_follows_kind(e: CliError)
    ensures
        error_kind(e) == CliErrorKind::Usage <==> exit_code_value(
            kind_exit_code(error_kind(e)),
        ) == 2,
        error_kind(e) == CliErrorKind::Runtime <==> exit_code_value(
            kind_exit_code(error_kind(e)),
        ) == 1,
        exit_code_value(kind_exit_code(error_kind(e))) != exit_code_value(CliExitCode::Success),
        (e is Args) <==> error_kind(e) == CliErrorKind::Usage,
{
}

} // verus!
