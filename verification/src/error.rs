//! The error taxonomy of the library: every failure is surfaced as a distinct
//! tagged variant, so callers can branch on the failure kind.

use vstd::prelude::*;

verus! {

/// A failure of one of the fetch operations.
///
/// The variants that arise from the surrounding I/O carry the message of the
/// underlying error; `Url` arises inside the library itself, when a filename
/// must be derived from a URL that has no host and no non-empty path segment.
#[derive(Debug, PartialEq, Eq)]
pub enum FetchError {
    /// The HTTP client could not be initialized.
    Construction(String),
    /// The request could not be sent or the connection failed.
    Request(String),
    /// The response body could not be interpreted as text.
    Decoding(String),
    /// The destination file could not be created or written.
    Filesystem(String),
    /// The URL has no host, so no filename can be derived from it.
    Url,
}

} // verus!
