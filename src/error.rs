//! The failures that a call can end in.

use vstd::prelude::*;

verus! {

/// The error object that the exchange sends when it rejects a request: its
/// code and message, verbatim.
#[derive(Clone, Debug)]
pub struct ApiError {
    pub code: i64,
    pub msg: String,
}

/// Every way a call can fail. Each kind stays distinct.
#[derive(Clone, Debug)]
pub enum Error {
    /// A signed call on a client without an API key and a secret key.
    AuthorizationKeysMissing,
    /// The server time, or a timestamp less the clock offset, is out of the
    /// range of a millisecond timestamp.
    TimestampOutOfRange,
    /// The request URL could not be parsed; carries the URL and the reason.
    UrlParsing(String, String),
    /// The request could not be built; carries the reason.
    RequestBuilding(String),
    /// The request could not be performed; carries the reason.
    RequestExecution(String),
    /// The response body could not be read; carries the reason.
    ResponseReading(String),
    /// The body matches neither shape of the envelope; carries the raw body.
    ResponseParsing(String),
    /// The exchange answered with its error object.
    ResponseError(ApiError),
}

} // verus!
