//! The errors that the library reports.
use vstd::prelude::*;

verus! {

/// Errors of the speech services client.
#[derive(Debug, Clone, PartialEq, Eq)]
pub enum Error {
    /// A message body could not be decoded; the text says why.
    ParseError(String),
    /// The service reported an error while recognizing.
    RecognitionError,
    /// The service refused the request: too many requests.
    TooManyRequests,
    /// The service refused the request as malformed.
    BadRequest,
    /// The service refused the request: access is forbidden.
    Forbidden,
    /// The endpoint address is not a valid URL; the text says why.
    InvalidUrl(String),
}

} // verus!
