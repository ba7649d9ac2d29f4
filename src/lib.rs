//! Retrieval and rendering of host error codes.
//!
//! An [`Error`] is a plain snapshot of a numeric host error code. The text that
//! the host message catalog holds for a code is looked up by the caller; this
//! library decodes the catalog's buffer and decides how the result reads,
//! including the fallback texts used when the catalog has no message.
pub mod error;
pub mod message;
pub mod os;

pub use error::{from_hresult, last_error, Error};
