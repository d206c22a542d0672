//! Safe construction of curl command lines for a sandboxed caller.
//!
//! Untrusted `(url, headers, path)` triples are validated and turned into a
//! deterministic argument list for an external curl tool; the raw outcome of
//! running that tool is translated back into a structured success/failure
//! value. Validation failures are detected before any argument list exists,
//! so no process can run and no file can be created for a rejected request.

pub mod api;
pub mod args;
pub mod outcome;
pub mod request;
pub mod text;
pub mod url_check;
pub mod vault;

pub use request::{CurlRequest, CurlResult, HttpHeader, ValidationError};
