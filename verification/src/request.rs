//! The data types that cross the library boundary: requests coming in,
//! structured results going out, and the validation errors in between.

use vstd::prelude::*;

verus! {

/// A single HTTP header; order and duplicates are the caller's business,
/// and no casing normalization is performed.
pub struct HttpHeader {
    pub name: String,
    pub value: String,
}

/// An outbound request: a destination URL and an ordered header sequence.
pub struct CurlRequest {
    pub url: String,
    pub headers: Vec<HttpHeader>,
}

/// The one value exposed across the boundary: exactly one of `payload` /
/// `error` carries content, selected by `success`.
pub struct CurlResult {
    pub success: bool,
    pub payload: String,
    pub error: String,
}

/// A rejection determined before any external process is invoked.
#[derive(Clone, Copy, PartialEq, Eq, Structural, Debug)]
pub enum ValidationError {
    /// Malformed URL or disallowed scheme.
    InvalidUrl,
    /// The resolved path would leave the caller's sandbox.
    PathEscapesSandbox,
}

/// The text a validation failure carries into a `CurlResult`.
pub open spec fn error_text(e: ValidationError) -> Seq<char> {
    match e {
        ValidationError::InvalidUrl => "url is malformed or its scheme is not http or https"@,
        ValidationError::PathEscapesSandbox => "path escapes the sandbox directory"@,
    }
}

impl ValidationError {
    /// The human-readable text of this error.
    pub fn message(&self) -> (r: String)
        ensures
            r@ == error_text(*self),
    {
        match self {
            ValidationError::InvalidUrl => String::from_str(
                "url is malformed or its scheme is not http or https",
            ),
            ValidationError::PathEscapesSandbox => String::from_str(
                "path escapes the sandbox directory",
            ),
        }
    }
}

} // verus!
