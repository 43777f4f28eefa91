//! Failure kinds of the request mapper.
//!
//! `NotFound` is kept apart from `HttpError` because callers commonly tell
//! "the item does not exist" from "the server answered unexpectedly".
use vstd::prelude::*;
use vstd::string::*;
use crate::text::{decimal, decimal_text};

verus! {

/// Errors returned by the parse and build operations of `TodoClient`.
#[derive(Debug, Clone)]
pub enum ApiError {
    /// The server answered 404: the item does not exist.
    NotFound,
    /// The server answered with another unexpected status; status and raw body are kept.
    HttpError { status: u16, body: String },
    /// The response body did not have the expected JSON shape; the parser's message is kept.
    DeserializationError(String),
    /// The request payload could not be encoded; the encoder's message is kept.
    SerializationError(String),
}

/// The human-readable description of an error.
pub open spec fn error_text(e: ApiError) -> Seq<char> {
    match e {
        ApiError::NotFound => "resource not found"@,
        ApiError::HttpError { status, body } => "HTTP "@ + decimal(status as nat) + ": "@ + body@,
        ApiError::DeserializationError(m) => "deserialization failed: "@ + m@,
        ApiError::SerializationError(m) => "serialization failed: "@ + m@,
    }
}

impl ApiError {
    /// The description of this error, as a caller shows it to a user.
    pub fn message(&self) -> (r: String)
        ensures
            r@ == error_text(*self),
    {
        match self {
            ApiError::NotFound => String::from_str("resource not found"),
            ApiError::HttpError { status, body } => {
                let mut s = String::from_str("HTTP ");
                let digits = decimal_text(*status as u64);
                s.append(digits.as_str());
                s.append(": ");
                s.append(body.as_str());
                s
            },
            ApiError::DeserializationError(m) => {
                let mut s = String::from_str("deserialization failed: ");
                s.append(m.as_str());
                s
            },
            ApiError::SerializationError(m) => {
                let mut s = String::from_str("serialization failed: ");
                s.append(m.as_str());
                s
            },
        }
    }
}

} // verus!
