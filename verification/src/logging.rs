//! Structured-log records and the severity threshold resolution used when
//! the logging sinks are brought up.  Writing the records to the console
//! and the rolling file is the caller's side effect; this module only
//! decides what a record holds.

use vstd::prelude::*;
use vstd::string::StringExecFns;

verus! {

/// Priority of a structured log line.
#[derive(Clone, Copy, Debug, PartialEq, Eq, Structural)]
pub enum Severity {
    Info,
    Warn,
    Error,
}

/// One structured log line, ready for a sink: a severity, the emitting
/// source's label, the response status, the human-readable message, and an
/// optional error detail.
#[derive(Clone, Debug)]
pub struct LogRecord {
    pub severity: Severity,
    pub source: String,
    pub status: u16,
    pub message: String,
    pub detail: Option<String>,
}

/// Picks the severity-filter directive for the logging sinks, in priority
/// order: the external override when it is present and the caller found it
/// well-formed, then the configured level when the caller found that
/// well-formed, then `info`.  An invalid override is skipped, not taken:
/// the configured level still wins over the fallback.  The caller judges
/// well-formedness with the sink's own directive parser and passes the two
/// verdicts in.
pub fn resolve_log_directive(
    env_directive: Option<String>,
    override_ok: bool,
    configured_ok: bool,
    configured: &str,
) -> (r: String)
    ensures
        r@ == match env_directive {
            Some(d) => if override_ok {
                d@
            } else if configured_ok {
                configured@
            } else {
                "info"@
            },
            None => if configured_ok {
                configured@
            } else {
                "info"@
            },
        },
{
    match env_directive {
        Some(d) => if override_ok {
            d
        } else if configured_ok {
            configured.to_owned()
        } else {
            String::from_str("info")
        },
        None => if configured_ok {
            configured.to_owned()
        } else {
            String::from_str("info")
        },
    }
}

} // verus!
