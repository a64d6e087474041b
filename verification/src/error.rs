//! The library's error type.

use vstd::prelude::*;

verus! {

#[verifier::external_type_specification]
#[verifier::external_body]
pub struct ExReqwestError(reqwest::Error);

#[verifier::external_type_specification]
#[verifier::external_body]
pub struct ExSerdeJsonError(serde_json::Error);

#[verifier::external_type_specification]
#[verifier::external_body]
pub struct ExUrlParseError(url::ParseError);

#[verifier::external_type_specification]
#[verifier::external_body]
pub struct ExIoError(std::io::Error);

/// Everything that can go wrong in a request, in session handling or in
/// storage.
#[derive(Debug)]
pub enum FlowfullError {
    /// A configuration value was refused (a header name or value, a URL).
    Config(String),
    /// The HTTP transport failed.
    Network(reqwest::Error),
    /// The server answered with a non-success status or a failed envelope.
    Api { status: u16, message: String, body: Option<String> },
    /// A body could not be written or read as JSON.
    Serde(serde_json::Error),
    Session(String),
    Storage(String),
    /// A URL could not be parsed or joined.
    Url(url::ParseError),
    Io(std::io::Error),
    /// Every attempt failed and no error was recorded.
    RequestFailed,
}

pub type Result<T> = core::result::Result<T, FlowfullError>;

} // verus!
