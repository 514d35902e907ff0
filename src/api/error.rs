use vstd::prelude::*;

verus! {

/// What a dispatch can fail with. Exactly one of these, or a success value,
/// comes out of each call.
#[derive(Debug)]
pub enum TweetyError {
    /// One or more of the four secrets is empty; nothing was sent.
    MissingCredentials,
    /// The target is not an absolute URL; nothing was sent.
    UrlParseError(url::ParseError),
    /// The request body could not be turned into JSON text; nothing was sent.
    SerializationError(String),
    /// The transport failed (connection, DNS, TLS, timeout).
    NetworkError(String),
    /// The response body is not JSON.
    JsonParseError(String),
    /// The service answered with a non-success status and a JSON body.
    ApiError(String),
}

} // verus!
