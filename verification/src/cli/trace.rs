//! Trace logging for a single run.  This build carries no trace logging,
//! so a request for it is refused with an actionable error.
use vstd::prelude::*;
use crate::cli::error::CliError;

verus! {

/// Whether this build can serve `--trace`.
pub const TRACE_LOGGING_AVAILABLE: bool = false;

/// The trace session of the current run; it holds nothing in this build.
#[derive(Debug)]
pub struct TraceSession;

impl TraceSession {
    fn disabled() -> TraceSession {
        TraceSession
    }
}

/// Sets up tracing for this run: nothing to do when tracing was not
/// requested, and a `TraceFeatureRequired` error when it was.
pub fn setup_trace(trace_requested: bool) -> (r: Result<TraceSession, CliError>)
    ensures
        !trace_requested ==> r is Ok,
        trace_requested ==> r matches Err(CliError::TraceFeatureRequired),
{
    if !trace_requested {
        return Ok(TraceSession::disabled());
    }
    Err(CliError::TraceFeatureRequired)
}

} // verus!
