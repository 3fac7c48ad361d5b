//! Classification of what the transport returned.
use vstd::prelude::*;
use crate::stats::Outcome;

verus! {

/// Default body length, in bytes, below which a successful response is taken
/// to carry an error payload.
pub const SMALL_BODY_THRESHOLD: u64 = 1000;

/// The class of a response that arrived in time.
pub enum ResponseClass {
    Success,
    HttpStatusFailure,
    PayloadFailure,
}

/// A status in the success range.
pub open spec fn is_success_status(status: u16) -> bool {
    200 <= status < 300
}

/// A successful status whose body is shorter than `threshold` is a payload
/// failure; a response that states no length counts as long enough.
pub open spec fn classify_spec(status: u16, content_length: Option<u64>, threshold: u64) -> ResponseClass {
    if !is_success_status(status) {
        ResponseClass::HttpStatusFailure
    } else {
        match content_length {
            Some(n) if n < threshold => ResponseClass::PayloadFailure,
            _ => ResponseClass::Success,
        }
    }
}

pub fn classify_response(status: u16, content_length: Option<u64>, threshold: u64) -> (r: ResponseClass)
    ensures
        r == classify_spec(status, content_length, threshold),
{
    if !(200 <= status && status < 300) {
        return ResponseClass::HttpStatusFailure;
    }
    match content_length {
        Some(n) => {
            if n < threshold {
                ResponseClass::PayloadFailure
            } else {
                ResponseClass::Success
            }
        },
        None => ResponseClass::Success,
    }
}

/// The text of an HTTP status: its code and canonical reason.
pub uninterp spec fn status_text_of(code: u16) -> Seq<char>;

/// Relies on reqwest::StatusCode (from_u16, which accepts 100 to 999, and its
/// Display): the text depends on the code alone.
#[verifier::external_body]
fn status_text(code: u16) -> (r: String)
    requires
        100 <= code <= 999,
    ensures
        r@ == status_text_of(code),
{
    reqwest::StatusCode::from_u16(code).unwrap().to_string()
}

/// The tally description of a response whose status has the text `status_text`.
pub fn http_error_description(status_text: &str) -> (r: String)
    ensures
        r@ == "HTTP error: "@ + status_text@,
{
    let mut r = String::from_str("HTTP error: ");
    r.append(status_text);
    r
}

/// The tally description of a short successful response whose payload reads `detail`.
pub fn payload_error_description(detail: &str) -> (r: String)
    ensures
        r@ == "JSON-RPC error: "@ + detail@,
{
    let mut r = String::from_str("JSON-RPC error: ");
    r.append(detail);
    r
}

/// The failure of a short successful response whose payload reads `detail`.
pub fn payload_failure(detail: &str) -> (r: Outcome)
    ensures
        r == (Outcome::Failure { description: r->description }),
        r->description@ == "JSON-RPC error: "@ + detail@,
{
    Outcome::Failure { description: payload_error_description(detail) }
}

/// What to do with a response that arrived in time.
pub enum Verdict {
    /// The outcome is settled.
    Done(Outcome),
    /// The body must be read: its payload describes the failure.
    InspectBody,
}

/// The verdict on a response with `status` and `content_length` that took
/// `elapsed_ms`.
pub fn response_verdict(status: u16, content_length: Option<u64>, threshold: u64, elapsed_ms: u64) -> (r: Verdict)
    requires
        100 <= status <= 999,
    ensures
        match classify_spec(status, content_length, threshold) {
            ResponseClass::Success => r == Verdict::Done(Outcome::Success { elapsed_ms }),
            ResponseClass::HttpStatusFailure => r is Done && r->Done_0 is Failure
                && r->Done_0->description@ == "HTTP error: "@ + status_text_of(status),
            ResponseClass::PayloadFailure => r is InspectBody,
        },
{
    match classify_response(status, content_length, threshold) {
        ResponseClass::Success => Verdict::Done(Outcome::Success { elapsed_ms }),
        ResponseClass::HttpStatusFailure => {
            let text = status_text(status);
            Verdict::Done(Outcome::Failure { description: http_error_description(text.as_str()) })
        },
        ResponseClass::PayloadFailure => Verdict::InspectBody,
    }
}

} // verus!
