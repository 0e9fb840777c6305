//! Errors of browser automation.

use vstd::prelude::*;
use crate::json::Json;

verus! {

/// Errors of the JSON reader and writer, carried through unchanged.
#[verifier::external_type_specification]
#[verifier::external_body]
pub struct ExJsonError(serde_json::Error);

/// Operating-system I/O errors, carried through unchanged.
#[verifier::external_type_specification]
#[verifier::external_body]
pub struct ExIoError(std::io::Error);

/// All errors that can occur during browser automation.
#[derive(Debug)]
pub enum BrowserError {
    /// Browser binary could not be found or failed to start.
    LaunchFailed(String),
    /// Could not connect to the browser's debug/driver endpoint.
    ConnectionFailed(String),
    /// The browser returned a protocol-level error.
    Protocol { code: i64, message: String, data: Option<Json> },
    /// WebSocket transport error.
    WebSocket(String),
    /// HTTP transport error.
    Http(String),
    /// JSON serialization/deserialization error.
    Json(serde_json::Error),
    /// OS-level I/O error.
    Io(std::io::Error),
    /// An operation did not complete within its time limit.
    Timeout(String),
    /// JavaScript evaluation threw an exception.
    JavaScript(String),
    /// Catch-all for other errors.
    Other(String),
}

/// Convenience alias used throughout the crate.
pub type Result<T> = std::result::Result<T, BrowserError>;

/// Whether `e` is a protocol error with exactly these fields.
pub open spec fn is_protocol_error(e: BrowserError, code: i64, message: Seq<char>, data: Option<crate::json::JsonV>) -> bool {
    &&& e matches BrowserError::Protocol { code: c, message: m, data: d }
    &&& c == code
    &&& m@ == message
    &&& match d {
        Some(j) => data == Some(j@),
        None => data is None,
    }
}

} // verus!
