//! The client's error type: a transport failure carried through from
//! the HTTP layer, or a failure the provider itself reported in the
//! status envelope of a well-formed response.

use vstd::prelude::*;
use crate::schema::Status;

verus! {

/// Declares reqwest's error type so a transport failure can be carried
/// inside [`DnspodError`]; the value stays opaque to this library.
#[verifier::external_type_specification]
#[verifier::external_body]
pub struct ExReqwestError(reqwest::Error);

/// What an operation can fail with: the HTTP exchange itself (or the
/// decoding of its body) failed, or the provider answered with a
/// status envelope whose code signals an error.
#[derive(Debug)]
pub enum DnspodError {
    Request(reqwest::Error),
    Api(Status),
}

/// Relies on the `Display` impl of `reqwest::Error` for the text of a
/// transport failure; nothing is assumed about that text.
#[verifier::external_body]
fn request_error_text(e: &reqwest::Error) -> String {
    format!("Request error: {}", e)
}

impl DnspodError {
    /// A one-line description; for a provider-reported failure it
    /// carries the provider's code and message verbatim.
    pub fn describe(&self) -> (r: String)
        ensures
            self matches DnspodError::Api(status) ==> r@ == "API error "@ + status.code@ + ": "@
                + status.message@,
    {
        match self {
            DnspodError::Request(e) => request_error_text(e),
            DnspodError::Api(status) => {
                let mut s = String::from_str("API error ");
                s.append(status.code.as_str());
                s.append(": ");
                s.append(status.message.as_str());
                s
            },
        }
    }

    /// The underlying transport error, for a transport failure alone.
    pub fn request_error(&self) -> (r: Option<&reqwest::Error>)
        ensures
            (r is Some) == (self is Request),
    {
        match self {
            DnspodError::Request(e) => Some(e),
            DnspodError::Api(_) => None,
        }
    }
}

} // verus!
