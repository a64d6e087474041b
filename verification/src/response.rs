//! What comes back from a request, and how a response is judged: a
//! non-success status or a failed `{ "success": false, ... }` envelope is
//! an API error.

use vstd::prelude::*;

use crate::error::{FlowfullError, Result};
use crate::json::{json_get, JsonValue};
use crate::text::{owned, u64_to_decimal};

verus! {

/// Pagination details of a list response.
#[derive(Debug, Clone, PartialEq, Eq)]
pub struct PaginationMeta {
    pub page: Option<u64>,
    pub limit: Option<u64>,
    pub total: Option<u64>,
    pub total_pages: Option<u64>,
}

/// The `{ success, data, error, message, status, meta }` envelope that
/// Flowfull backends wrap their results in.
#[derive(Debug, Clone)]
pub struct ApiResponse<T> {
    pub success: bool,
    pub data: Option<T>,
    pub error: Option<String>,
    pub message: Option<String>,
    pub status: Option<u16>,
    pub meta: Option<PaginationMeta>,
}

/// A response as it came off the wire.
#[derive(Debug, Clone)]
pub struct RawResponse {
    pub status: u16,
    /// Header names with their raw values, in the order received.
    pub headers: Vec<(String, Vec<u8>)>,
    pub body: Vec<u8>,
}

/// `String::from_utf8_lossy` on `bytes`.
pub uninterp spec fn utf8_lossy(bytes: Seq<u8>) -> Seq<char>;

/// `String::from_utf8_lossy`: the text of the bytes, each invalid sequence
/// replaced by U+FFFD. The result is named `utf8_lossy` of the bytes.
#[verifier::external_body]
fn lossy_text(bytes: &Vec<u8>) -> (r: String)
    ensures
        r@ == utf8_lossy(bytes@),
{
    String::from_utf8_lossy(bytes).into_owned()
}

impl RawResponse {
    /// The body as text.
    pub fn text(&self) -> (r: String)
        ensures
            r@ == utf8_lossy(self.body@),
    {
        lossy_text(&self.body)
    }
}

/// Whether a status is a success (2xx).
pub open spec fn is_success_status(status: u16) -> bool {
    200 <= status < 300
}

/// The error for a response whose status is not a success: the status, and
/// the body as both message and body.
pub open spec fn status_error_matches(e: FlowfullError, raw: RawResponse) -> bool {
    e matches FlowfullError::Api { status, message, body }
        && status == raw.status && message@ == utf8_lossy(raw.body@)
        && body.is_some() && body.unwrap()@ == utf8_lossy(raw.body@)
}

/// Refuses a response whose status is not 2xx.
pub fn check_status(raw: &RawResponse) -> (r: Result<()>)
    ensures
        match r {
            Ok(_) => is_success_status(raw.status),
            Err(e) => !is_success_status(raw.status) && status_error_matches(e, *raw),
        },
{
    if raw.status >= 200 && raw.status < 300 {
        Ok(())
    } else {
        Err(FlowfullError::Api { status: raw.status, message: raw.text(), body: Some(raw.text()) })
    }
}

/// Whether a response document is an envelope to be read with
/// `select_payload`: an object with a `success` member.
pub fn is_envelope(document: &JsonValue) -> (r: bool)
    ensures
        r == json_get(document@, "success"@).is_some(),
{
    document.get("success").is_some()
}

/// Which part of a successful response holds the result.
#[derive(Debug)]
pub enum Payload<D> {
    /// The whole document.
    Whole,
    /// The `data` member of the envelope.
    Data(D),
}

/// The message of a failed envelope: its `error`, else its `message`, else
/// "request failed".
pub open spec fn envelope_message<D>(envelope: ApiResponse<D>) -> Seq<char> {
    match envelope.error {
        Some(e) => e@,
        None => match envelope.message {
            Some(m) => m@,
            None => "request failed"@,
        },
    }
}

/// Decides what a successful response yields. `envelope` is the document
/// read as an envelope when it has a `success` member, and nothing when it
/// has none: without an envelope the whole document is the result; an
/// envelope with `success` false is an API error with the status, the
/// envelope's message and the body text; otherwise its `data`, when set, is
/// the result, and the whole document when not.
pub fn select_payload<D>(status: u16, body_text: String, envelope: Option<ApiResponse<D>>) -> (r: Result<Payload<D>>)
    ensures
        match envelope {
            None => r matches Ok(Payload::Whole),
            Some(env) => if !env.success {
                r matches Err(FlowfullError::Api { status: s, message, body })
                    && s == status && message@ == envelope_message(env) && body == Some(body_text)
            } else {
                match env.data {
                    Some(d) => r matches Ok(Payload::Data(x)) && x == d,
                    None => r matches Ok(Payload::Whole),
                }
            },
        },
{
    match envelope {
        None => Ok(Payload::Whole),
        Some(env) => {
            if !env.success {
                let message = match env.error {
                    Some(e) => e,
                    None => match env.message {
                        Some(m) => m,
                        None => owned("request failed"),
                    },
                };
                Err(FlowfullError::Api { status, message, body: Some(body_text) })
            } else {
                match env.data {
                    Some(d) => Ok(Payload::Data(d)),
                    None => Ok(Payload::Whole),
                }
            }
        },
    }
}

} // verus!
