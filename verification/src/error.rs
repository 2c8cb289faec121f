//! The error taxonomy of the fetch path.
//!
//! Every failure carries the symbol it concerns, a human-readable message,
//! and an optional detail with the underlying cause. The kind classifies the
//! failure: a transport or status failure, a response body that does not
//! decode as the expected envelope, a well-formed envelope carrying a
//! provider-reported error, or anything not otherwise classified.

use vstd::prelude::*;
use vstd::string::StringExecFns;

verus! {

/// The class of a fetch failure.
#[derive(Debug, Clone, Copy, PartialEq, Eq, Structural)]
pub enum ErrorKind {
    HttpError,
    ParseFailure,
    MissingData,
    Unknown,
}

/// A failure of the quote fetch path, tied to the symbol it concerns.
#[derive(Debug)]
pub struct QuoteError {
    pub kind: ErrorKind,
    pub symbol: String,
    pub message: String,
    pub detail: Option<String>,
}

impl QuoteError {
    /// A transport-level failure: connection, timeout, or a non-success
    /// status.
    pub fn request_failure(symbol: &str, detail: String) -> (r: QuoteError)
        ensures
            r.kind == ErrorKind::HttpError,
            r.symbol@ == symbol@,
            r.message@ == "Request Failure"@,
            r.detail matches Some(d) && d == detail,
    {
        QuoteError {
            kind: ErrorKind::HttpError,
            symbol: symbol.to_owned(),
            message: String::from_str("Request Failure"),
            detail: Some(detail),
        }
    }

    /// A response body that does not decode as the expected envelope.
    pub fn parse_failure(symbol: &str, detail: String) -> (r: QuoteError)
        ensures
            r.kind == ErrorKind::ParseFailure,
            r.symbol@ == symbol@,
            r.message@ == "Parse Failure"@,
            r.detail matches Some(d) && d == detail,
    {
        QuoteError {
            kind: ErrorKind::ParseFailure,
            symbol: symbol.to_owned(),
            message: String::from_str("Parse Failure"),
            detail: Some(detail),
        }
    }

    /// A well-formed envelope whose provider-level error field is set; the
    /// detail is that field's payload, and there is no chained cause.
    pub fn missing_data(symbol: &str, detail: String) -> (r: QuoteError)
        ensures
            r.kind == ErrorKind::MissingData,
            r.symbol@ == symbol@,
            r.message@ == "Missing Data"@,
            r.detail matches Some(d) && d == detail,
    {
        QuoteError {
            kind: ErrorKind::MissingData,
            symbol: symbol.to_owned(),
            message: String::from_str("Missing Data"),
            detail: Some(detail),
        }
    }

    /// A failure not otherwise classified.
    pub fn unknown(symbol: &str, detail: String) -> (r: QuoteError)
        ensures
            r.kind == ErrorKind::Unknown,
            r.symbol@ == symbol@,
            r.message@ == "Unknown"@,
            r.detail matches Some(d) && d == detail,
    {
        QuoteError {
            kind: ErrorKind::Unknown,
            symbol: symbol.to_owned(),
            message: String::from_str("Unknown"),
            detail: Some(detail),
        }
    }
}

} // verus!
