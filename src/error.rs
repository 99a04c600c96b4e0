//! The failures that the client reports.
use vstd::prelude::*;

verus! {

/// What went wrong during construction or one exchange with the service.
#[derive(Debug, Clone, PartialEq, Eq)]
pub enum GptError {
    /// The transport failed: the connection, or reading the body.
    RequestError(String),
    /// The credential cannot be sent as a header value.
    HeaderError,
    /// The service answered with a status outside 200..=299.
    ApiError { status_code: u16, message: String },
    /// The answer was not the expected JSON, or lacked the expected fields.
    ParseError(String),
    /// A required setting was missing when the client was built.
    ConfigError(String),
}

} // verus!
