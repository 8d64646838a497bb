//! The uniform response envelope: a status code, a message, and exactly
//! one of a success payload or an error detail.  The envelope renders
//! itself to JSON here — the absent member is omitted entirely, never
//! emitted as a null placeholder — and each constructor also hands back
//! the structured log record to submit, detached, to the sinks.

use vstd::prelude::*;
use vstd::string::StrSliceExecFns;
use vstd::string::StringExecFns;

use crate::json::json_string;
use crate::json::push_json_string;
use crate::logging::LogRecord;
use crate::logging::Severity;
use crate::text::dec_str;
use crate::text::push_u64_dec;

verus! {

/// A value that knows its own JSON rendering.
pub trait ToJson {
    /// The JSON text this value serializes to.
    spec fn json_repr(&self) -> Seq<char>;

    /// Renders this value as JSON.
    fn to_json(&self) -> (r: String)
        ensures
            r@ == self.json_repr(),
    ;
}

impl ToJson for () {
    open spec fn json_repr(&self) -> Seq<char> {
        "null"@
    }

    fn to_json(&self) -> (r: String)
        ensures
            r@ == self.json_repr(),
    {
        String::from_str("null")
    }
}

/// The opening of every envelope: status and message members.
pub open spec fn envelope_head(status: u16, message: Seq<char>) -> Seq<char> {
    "{\"status\":"@ + dec_str(status as nat) + ",\"message\":"@ + json_string(message)
}

/// A success envelope's JSON: head, then only the `data` member.
pub open spec fn success_json(status: u16, message: Seq<char>, data: Seq<char>) -> Seq<char> {
    envelope_head(status, message) + ",\"data\":"@ + data + "}"@
}

/// An error envelope's JSON: head, then only the `error` member.
pub open spec fn error_json(status: u16, message: Seq<char>, detail: Seq<char>) -> Seq<char> {
    envelope_head(status, message) + ",\"error\":"@ + json_string(detail) + "}"@
}

/// The uniform wrapper around every handler result.
pub struct ApiResponse<T> {
    pub status: u16,
    pub message: String,
    pub data: Option<T>,
    pub error: Option<String>,
}

impl<T> ApiResponse<T> {
    /// The envelope invariant: exactly one of payload and error is present.
    pub open spec fn wf(&self) -> bool {
        (self.data is Some) <==> (self.error is None)
    }
}

impl<T: ToJson> ToJson for ApiResponse<T> {
    open spec fn json_repr(&self) -> Seq<char> {
        match self.data {
            Some(d) => success_json(self.status, self.message@, d.json_repr()),
            None => match self.error {
                Some(e) => error_json(self.status, self.message@, e@),
                None => envelope_head(self.status, self.message@) + "}"@,
            },
        }
    }

    fn to_json(&self) -> (r: String)
        ensures
            r@ == self.json_repr(),
    {
        let mut out = String::from_str("{\"status\":");
        push_u64_dec(&mut out, self.status as u64);
        out.append(",\"message\":");
        push_json_string(&mut out, self.message.as_str());
        match &self.data {
            Some(d) => {
                out.append(",\"data\":");
                let data_text = d.to_json();
                out.append(data_text.as_str());
            },
            None => {
                match &self.error {
                    Some(e) => {
                        out.append(",\"error\":");
                        push_json_string(&mut out, e.as_str());
                    },
                    None => {},
                }
            },
        }
        out.append("}");
        proof {
            assert(out@ =~= self.json_repr());
        }
        out
    }
}

/// The envelope constructors the handlers call.
pub struct AppResponse;

impl AppResponse {
    /// Wraps a success payload: the envelope carries `data` and no `error`,
    /// and the paired log record reports the send at info severity.  The
    /// caller submits the record to the sinks as detached work, so the
    /// response never waits on the log write.
    pub fn success<T: ToJson>(data: T, message: &str, code: u16) -> (r: (ApiResponse<T>, LogRecord))
        ensures
            r.0.wf(),
            r.0.status == code,
            r.0.message@ == message@,
            r.0.data == Some(data),
            r.0.error is None,
            r.1.severity == Severity::Info,
            r.1.source@ == "AppResponse::success"@,
            r.1.status == code,
            r.1.message@ == message@,
            r.1.detail is None,
    {
        let envelope = ApiResponse {
            status: code,
            message: message.to_owned(),
            data: Some(data),
            error: None,
        };
        let record = LogRecord {
            severity: Severity::Info,
            source: String::from_str("AppResponse::success"),
            status: code,
            message: message.to_owned(),
            detail: None,
        };
        (envelope, record)
    }

    /// Wraps an error detail: the envelope carries `error` and no `data`,
    /// and the paired log record reports the send at error severity, with
    /// the detail attached.  As with success, the record is for detached
    /// submission.
    pub fn error(error_detail: &str, message: &str, code: u16) -> (r: (ApiResponse<()>, LogRecord))
        ensures
            r.0.wf(),
            r.0.status == code,
            r.0.message@ == message@,
            r.0.data is None,
            r.0.error matches Some(e) && e@ == error_detail@,
            r.1.severity == Severity::Error,
            r.1.source@ == "AppResponse::error"@,
            r.1.status == code,
            r.1.message@ == message@,
            r.1.detail matches Some(d) && d@ == error_detail@,
    {
        let envelope = ApiResponse {
            status: code,
            message: message.to_owned(),
            data: None,
            error: Some(error_detail.to_owned()),
        };
        let record = LogRecord {
            severity: Severity::Error,
            source: String::from_str("AppResponse::error"),
            status: code,
            message: message.to_owned(),
            detail: Some(error_detail.to_owned()),
        };
        (envelope, record)
    }
}

/// Law: a well-formed envelope serializes with exactly one of the `data`
/// and `error` members — the success form mentions no `error` member and
/// the error form mentions no `data` member, and the absent one is omitted
/// outright rather than rendered as null.
pub proof fn lemma_envelope_exclusive<T: ToJson>(e: ApiResponse<T>)
    requires
        e.wf(),
    ensures
        !(e.data is Some && e.error is Some),
        e.data matches Some(d) ==> e.json_repr() == success_json(e.status, e.message@, d.json_repr()),
        e.data is None ==> (e.error matches Some(detail) && e.json_repr() == error_json(
            e.status,
            e.message@,
            detail@,
        )),
{
}

} // verus!
