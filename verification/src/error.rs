//! The errors the library reports.
use vstd::prelude::*;

use crate::text::{concat2, concat3, u64_to_decimal};

verus! {

/// All errors that baochuan can produce.
#[derive(Debug, Clone)]
pub enum BaochuanError {
    /// A network or transport-level failure, as the HTTP client described it.
    Http(String),
    /// The remote API returned a non-success status code.
    Api { status: u16, message: String },
    /// The response body could not be parsed as expected JSON; the parser's
    /// description.
    Deserialization(String),
    /// The request was invalid before it was even sent.
    InvalidRequest(String),
    /// The stream contained a malformed or unexpected line.
    Stream(String),
}

/// The human-readable description of an error.
pub open spec fn error_text(e: BaochuanError) -> Seq<char> {
    match e {
        BaochuanError::Http(m) => "HTTP error: "@ + m@,
        BaochuanError::Api { status, message } => "API error (HTTP "@ + crate::text::decimal(
            status as nat,
        ) + "): "@ + message@,
        BaochuanError::Deserialization(m) => "Deserialization error: "@ + m@,
        BaochuanError::InvalidRequest(m) => "Invalid request: "@ + m@,
        BaochuanError::Stream(m) => "Stream error: "@ + m@,
    }
}

/// `r` is an `InvalidRequest` error with the given message.
pub open spec fn is_invalid_request<T>(r: Result<T, BaochuanError>, msg: Seq<char>) -> bool {
    r matches Err(BaochuanError::InvalidRequest(m)) && m@ == msg
}

impl BaochuanError {
    /// The human-readable description of the error, e.g.
    /// `Invalid request: model must be specified`.
    pub fn to_string(&self) -> (r: String)
        ensures
            r@ == error_text(*self),
    {
        match self {
            BaochuanError::Http(m) => concat2("HTTP error: ", m.as_str()),
            BaochuanError::Api { status, message } => {
                let code = u64_to_decimal(*status as u64);
                let mut s = concat3("API error (HTTP ", code.as_str(), "): ");
                s.append(message.as_str());
                s
            },
            BaochuanError::Deserialization(m) => concat2("Deserialization error: ", m.as_str()),
            BaochuanError::InvalidRequest(m) => concat2("Invalid request: ", m.as_str()),
            BaochuanError::Stream(m) => concat2("Stream error: ", m.as_str()),
        }
    }
}

} // verus!
