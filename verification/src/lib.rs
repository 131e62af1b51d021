//! Helpers for fetching content over HTTP(S): the pure logic behind
//! downloading a URL to a local file.
//!
//! The filename-derivation algorithm and the destination-resolution rule live
//! here, stated and proved over sequence models of the strings involved. The
//! blocking HTTP client and the filesystem writes that surround them are kept
//! out of this crate's verified core.

pub mod dest;
pub mod error;
pub mod filename;

pub use dest::Destination;
pub use error::FetchError;
pub use filename::UrlParts;
