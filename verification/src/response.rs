//! Classification of the analysis service's responses: rate-limit detection
//! over the status and body text, extraction of the candidate text or error
//! payload from the JSON body, and the backoff bookkeeping each outcome
//! entails.

use vstd::prelude::*;
use crate::limiter::{next_backoff, RateLimiter};
use crate::text::{clip_chars, clip_spec, contains_seq, str_contains};

verus! {

/// How many characters of an unreadable body are kept when reporting it.
pub const REPORTED_BODY_CHARS: usize = 200;

/// What the JSON body of a response held.
pub enum BodyPayload {
    /// The body was not JSON at all.
    NotJson,
    /// The body carried a structured error payload with this message.
    ErrorPayload { message: String },
    /// The body carried a first candidate with this text.
    CandidateText { text: String },
    /// The body parsed, but no candidate text could be extracted.
    NoText,
}

/// Spec-level shape of `BodyPayload`.
pub enum BodyPayloadView {
    NotJson,
    ErrorPayload { message: Seq<char> },
    CandidateText { text: Seq<char> },
    NoText,
}

impl View for BodyPayload {
    type V = BodyPayloadView;

    open spec fn view(&self) -> BodyPayloadView {
        match self {
            BodyPayload::NotJson => BodyPayloadView::NotJson,
            BodyPayload::ErrorPayload { message } => BodyPayloadView::ErrorPayload {
                message: message@,
            },
            BodyPayload::CandidateText { text } => BodyPayloadView::CandidateText { text: text@ },
            BodyPayload::NoText => BodyPayloadView::NoText,
        }
    }
}

// What serde_json makes of a response body is a function of the body text
// alone; this names that outcome so contracts can speak of it exactly.
pub uninterp spec fn parsed_body_of(body: Seq<char>) -> BodyPayloadView;

/// Relies on serde_json::from_str and serde_json::Value's accessors (get,
/// pointer, as_str): parses the body and extracts the error message, or the
/// text of the first part of the first candidate's content, exactly as the
/// service's wire format nests them. The outcome depends on the body text
/// alone.
#[verifier::external_body]
fn parse_response_body(body: &str) -> (r: BodyPayload)
    ensures
        r@ == parsed_body_of(body@),
{
    let v: serde_json::Value = match serde_json::from_str(body) {
        Ok(v) => v,
        Err(_) => return BodyPayload::NotJson,
    };
    if let Some(e) = v.get("error").filter(|e| !e.is_null()) {
        let m = e.get("message").and_then(|m| m.as_str()).unwrap_or("");
        return BodyPayload::ErrorPayload { message: m.to_string() };
    }
    match v.pointer("/candidates/0/content/parts/0/text").and_then(|t| t.as_str()) {
        Some(t) => BodyPayload::CandidateText { text: t.to_string() },
        None => BodyPayload::NoText,
    }
}

/// One of the known rate-limit markers occurs in the body text.
pub open spec fn rate_limit_marker_in(body: Seq<char>) -> bool {
    ||| contains_seq(body, "429"@)
    ||| contains_seq(body, "RESOURCE_EXHAUSTED"@)
    ||| contains_seq(body, "rate"@)
}

/// The response signals quota pressure: HTTP status 429, or a rate-limit
/// marker anywhere in the body text. The markers are tested whatever the
/// status, deliberately: a quota message carried by another status (a 403
/// with RESOURCE_EXHAUSTED, say) is still quota pressure and must escalate
/// the backoff.
pub open spec fn is_rate_limited_response(status: u16, body: Seq<char>) -> bool {
    status == 429 || rate_limit_marker_in(body)
}

/// Tests a response for the rate-limit signals.
pub fn response_is_rate_limited(status: u16, body: &str) -> (r: bool)
    ensures
        r == is_rate_limited_response(status, body@),
{
    if status == 429 {
        return true;
    }
    if str_contains(body, "429") {
        return true;
    }
    if str_contains(body, "RESOURCE_EXHAUSTED") {
        return true;
    }
    str_contains(body, "rate")
}

/// The stand-in intelligence text returned when the body parsed but carried
/// no candidate text, so a transcript is never silently dropped.
pub open spec fn no_text_intelligence() -> Seq<char> {
    "{\"transcript\":\"\",\"tone\":\"NEUTRAL\",\"category\":[\"INFO\"],\"confidence\":0.3}"@
}

/// A classified response of the analysis service.
pub enum AnalysisOutcome {
    /// A successful analysis carrying the extracted intelligence text.
    Analysis { text: String },
    /// The service reported quota pressure; the backoff now stands at this
    /// many seconds.
    RateLimited { backoff_secs: u64 },
    /// The service answered with a structured error payload.
    ApiError { message: String },
    /// The body could not be read as JSON; at most `REPORTED_BODY_CHARS`
    /// characters of it are kept for reporting.
    ParseError { body_prefix: String },
}

/// What `classify_response` returns and does to the backoff, stated over the
/// rate-limit signals and the parsed body.
pub open spec fn classified_outcome(
    status: u16,
    body: Seq<char>,
    r: AnalysisOutcome,
    old_backoff: int,
    new_backoff: int,
) -> bool {
    if is_rate_limited_response(status, body) {
        &&& new_backoff == next_backoff(old_backoff)
        &&& (r matches AnalysisOutcome::RateLimited { backoff_secs } && backoff_secs
            == new_backoff)
    } else {
        match parsed_body_of(body) {
            BodyPayloadView::NotJson => {
                &&& new_backoff == old_backoff
                &&& (r matches AnalysisOutcome::ParseError { body_prefix } && body_prefix@
                    == clip_spec(body, REPORTED_BODY_CHARS as int))
            },
            BodyPayloadView::ErrorPayload { message } => {
                &&& new_backoff == 0
                &&& (r matches AnalysisOutcome::ApiError { message: m } && m@ == message)
            },
            BodyPayloadView::CandidateText { text } => {
                &&& new_backoff == 0
                &&& (r matches AnalysisOutcome::Analysis { text: t } && t@ == text)
            },
            BodyPayloadView::NoText => {
                &&& new_backoff == 0
                &&& (r matches AnalysisOutcome::Analysis { text: t } && t@
                    == no_text_intelligence())
            },
        }
    }
}

/// Classifies one response and applies the asymmetric backoff policy: double
/// (floored, capped) on confirmed quota pressure; reset to zero on any other
/// classified response; untouched when the body cannot be read at all.
pub fn classify_response(status: u16, body: &str, limiter: &mut RateLimiter) -> (r:
    AnalysisOutcome)
    requires
        old(limiter).wf(),
    ensures
        final(limiter).wf(),
        final(limiter).last_request_at_ms == old(limiter).last_request_at_ms,
        classified_outcome(
            status,
            body@,
            r,
            old(limiter).backoff_secs as int,
            final(limiter).backoff_secs as int,
        ),
{
    if response_is_rate_limited(status, body) {
        limiter.record_rate_limited();
        return AnalysisOutcome::RateLimited { backoff_secs: limiter.backoff_secs };
    }
    match parse_response_body(body) {
        BodyPayload::NotJson => AnalysisOutcome::ParseError {
            body_prefix: clip_chars(body, REPORTED_BODY_CHARS),
        },
        BodyPayload::ErrorPayload { message } => {
            limiter.record_unthrottled();
            AnalysisOutcome::ApiError { message }
        },
        BodyPayload::CandidateText { text } => {
            limiter.record_unthrottled();
            AnalysisOutcome::Analysis { text }
        },
        BodyPayload::NoText => {
            limiter.record_unthrottled();
            AnalysisOutcome::Analysis {
                text: String::from_str(
                    "{\"transcript\":\"\",\"tone\":\"NEUTRAL\",\"category\":[\"INFO\"],\"confidence\":0.3}",
                ),
            }
        },
    }
}

/// How a connection test's HTTP status reads.
pub enum ConnectionProbe {
    /// Status 429: the service is rate-limiting the caller.
    RateLimited,
    /// Status 403: the quota is exhausted.
    QuotaExhausted,
    /// Any other non-success status.
    HttpError { status: u16 },
    /// A success status: the connection works.
    Connected,
}

/// Classifies the status of a connection test: 429 means rate-limited, 403
/// means quota exhausted, any other status outside 200..=299 is a plain HTTP
/// error, and a success status means connected.
pub fn classify_connection_probe(status: u16) -> (r: ConnectionProbe)
    ensures
        (status == 429 ==> r is RateLimited),
        (status == 403 ==> r is QuotaExhausted),
        (status != 429 && status != 403 && !(200 <= status <= 299) ==> (r
            matches ConnectionProbe::HttpError { status: s } && s == status)),
        (200 <= status <= 299 ==> r is Connected),
{
    if status == 429 {
        ConnectionProbe::RateLimited
    } else if status == 403 {
        ConnectionProbe::QuotaExhausted
    } else if !(200 <= status && status <= 299) {
        ConnectionProbe::HttpError { status }
    } else {
        ConnectionProbe::Connected
    }
}

/// The HTTP status code reported alongside a failed analysis: 429 for quota
/// pressure, 500 for anything else.
pub fn failure_code(outcome: &AnalysisOutcome) -> (code: u16)
    ensures
        code == (if outcome is RateLimited {
            429u16
        } else {
            500u16
        }),
{
    match outcome {
        AnalysisOutcome::RateLimited { .. } => 429,
        _ => 500,
    }
}

} // verus!
