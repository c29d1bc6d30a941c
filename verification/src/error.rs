//! The error type of the crate.

use crate::text::decimal_digits;
use crate::text::push_decimal;
use vstd::prelude::*;
use vstd::string::*;

verus! {

/// What a status code is commonly called, where it has a common name.
pub uninterp spec fn reason_phrase(status: u16) -> Option<Seq<char>>;

/// `StatusCode::from_u16` and `StatusCode::canonical_reason`: the common
/// name of a status code, such as `Not Found` for 404. `None` for a number
/// that is no status code, and for a code without a common name. The answer
/// depends on the number alone.
#[verifier::external_body]
pub(crate) fn canonical_reason(status: u16) -> (reason: Option<String>)
    ensures
        match reason {
            Some(r) => reason_phrase(status) == Some(r@),
            None => reason_phrase(status) is None,
        },
{
    match reqwest::StatusCode::from_u16(status) {
        Ok(code) => code.canonical_reason().map(String::from),
        Err(_) => None,
    }
}

/// Everything that can go wrong between this client and the Xero API.
///
/// Each variant holds, as text, what the failing layer reported.
#[derive(Debug)]
pub enum XeroError {
    /// The HTTP request could not be made or its response not read.
    Request(String),
    /// JSON could not be written or read.
    Serde(String),
    /// The API answered with a status that is no success.
    Api { status: u16, message: String },
    /// The OAuth 2.0 exchange failed, or there is no token to work with.
    Auth(String),
    /// The rate limiter refused the call.
    RateLimiter(String),
    /// A cache file could not be read or written.
    Io(String),
}

/// A status as it is shown: the number and its common name.
pub open spec fn status_line(status: u16) -> Seq<char> {
    decimal_digits(status as nat) + seq![' '] + match reason_phrase(status) {
        Some(reason) => reason,
        None => "<unknown status code>"@,
    }
}

impl XeroError {
    /// What the error says to a reader.
    pub open spec fn spec_message(&self) -> Seq<char> {
        match self {
            XeroError::Request(detail) => "HTTP request error: "@ + detail@,
            XeroError::Serde(detail) => "Serialization/Deserialization error: "@ + detail@,
            XeroError::Api { status, message } => "Xero API error ("@ + status_line(*status)
                + "): "@ + message@,
            XeroError::Auth(detail) => "Authentication error: "@ + detail@,
            XeroError::RateLimiter(detail) => "Rate limiter error: "@ + detail@,
            XeroError::Io(detail) => "I/O error: "@ + detail@,
        }
    }

    /// What the error says to a reader: the layer that failed, and what it
    /// reported.
    pub fn message(&self) -> (text: String)
        ensures
            text@ == self.spec_message(),
    {
        match self {
            XeroError::Request(detail) => String::from_str("HTTP request error: ").concat(
                detail.as_str(),
            ),
            XeroError::Serde(detail) => String::from_str(
                "Serialization/Deserialization error: ",
            ).concat(detail.as_str()),
            XeroError::Api { status, message } => {
                let mut text = String::from_str("Xero API error (");
                push_decimal(&mut text, *status as u64);
                text.push(' ');
                match canonical_reason(*status) {
                    Some(reason) => text.append(reason.as_str()),
                    None => text.append("<unknown status code>"),
                }
                text.append("): ");
                text.append(message.as_str());
                proof {
                    assert(text@ =~= self.spec_message());
                }
                text
            },
            XeroError::Auth(detail) => String::from_str("Authentication error: ").concat(
                detail.as_str(),
            ),
            XeroError::RateLimiter(detail) => String::from_str("Rate limiter error: ").concat(
                detail.as_str(),
            ),
            XeroError::Io(detail) => String::from_str("I/O error: ").concat(detail.as_str()),
        }
    }
}

} // verus!
