//! The `Error` enum.
use vstd::prelude::*;

verus! {

/// The ways an operation of this library can fail.
#[derive(Debug, Clone, PartialEq, Eq)]
pub enum Error {
    /// The identifier given cannot name a record.
    InvalidId,
    /// The service answered with an `errors` list; the first message, as sent.
    ApiError(String),
    /// The response body is not valid JSON; the parser's message.
    JsonParseError(String),
    /// A required field is missing or has the wrong type; the field's name.
    DecodeError(String),
    /// The request could not be sent or answered; the transport's message.
    TransportError(String),
    /// No query document exists for the requested entity and action.
    UnsupportedOperation,
}

/// A result whose error is this library's `Error`.
pub type Result<T> = core::result::Result<T, Error>;

} // verus!
