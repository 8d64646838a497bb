//! Request-logging decisions.  The middleware around the router captures
//! the method and path before dispatch and the elapsed time after it; this
//! module turns those observations into exactly one log record per
//! request, at a severity keyed to the class of the response status.

use vstd::prelude::*;
use vstd::string::StringExecFns;

use crate::logging::LogRecord;
use crate::logging::Severity;
use crate::text::dec_pad;
use crate::text::dec_str;
use crate::text::push_u64_dec;
use crate::text::push_u64_dec_pad;

verus! {

/// Severity class of an HTTP status code: client errors log as warnings,
/// server errors as errors, everything else (1xx/2xx/3xx and codes outside
/// every class) as plain information.
pub open spec fn severity_of_status(status: u16) -> Severity {
    if 400 <= status <= 499 {
        Severity::Warn
    } else if 500 <= status <= 599 {
        Severity::Error
    } else {
        Severity::Info
    }
}

/// Picks the log severity for a response status code.
pub fn severity_for_status(status: u16) -> (r: Severity)
    ensures
        r == severity_of_status(status),
{
    if 400 <= status && status <= 499 {
        Severity::Warn
    } else if 500 <= status && status <= 599 {
        Severity::Error
    } else {
        Severity::Info
    }
}

/// The text of a request log line: method, path, status and the elapsed
/// wall-clock time in fractional milliseconds, space-separated.
pub open spec fn request_line(
    method: Seq<char>,
    path: Seq<char>,
    status: u16,
    elapsed_micros: u64,
) -> Seq<char> {
    method + " "@ + path + " "@ + dec_str(status as nat) + " "@ + dec_str(
        (elapsed_micros / 1000) as nat,
    ) + "."@ + dec_pad((elapsed_micros % 1000) as nat, 3) + "ms"@
}

/// Builds the one log record the middleware emits for a finished request.
pub fn request_log_record(method: &str, path: &str, status: u16, elapsed_micros: u64) -> (r:
    LogRecord)
    ensures
        r.severity == severity_of_status(status),
        r.source@ == "logger_middleware"@,
        r.status == status,
        r.message@ == request_line(method@, path@, status, elapsed_micros),
        r.detail is None,
{
    let mut line = method.to_owned();
    line.append(" ");
    line.append(path);
    line.append(" ");
    push_u64_dec(&mut line, status as u64);
    line.append(" ");
    push_u64_dec(&mut line, elapsed_micros / 1000);
    line.append(".");
    push_u64_dec_pad(&mut line, elapsed_micros % 1000, 3);
    line.append("ms");
    LogRecord {
        severity: severity_for_status(status),
        source: String::from_str("logger_middleware"),
        status,
        message: line,
        detail: None,
    }
}

/// Law: for every finished request the middleware produces one record, and
/// its severity is determined by the status class alone — warnings exactly
/// for the 4xx statuses and errors exactly for the 5xx statuses.
pub proof fn lemma_severity_by_class(status: u16)
    ensures
        severity_of_status(status) == Severity::Warn <==> 400 <= status <= 499,
        severity_of_status(status) == Severity::Error <==> 500 <= status <= 599,
        severity_of_status(status) == Severity::Info <==> (status < 400 || status > 599),
{
}

} // verus!
