use vstd::prelude::*;

verus! {

/// Everything that can go wrong from dispatching a request to reading its body.
#[derive(Debug, Clone, PartialEq, Eq)]
pub enum FetchError {
    /// The method token names no supported HTTP verb.
    InvalidMethod,
    /// The exchange itself failed; the message describes why.
    TransportFailure(String),
    /// The value of the named header cannot be shown as text.
    HeaderEncodingError(String),
    /// The body is not valid UTF-8 but was read as text.
    InvalidEncoding,
    /// The body is UTF-8 but does not parse as JSON; the message is the parser's.
    MalformedJson(String),
    /// The body of this view was already read.
    BodyAlreadyConsumed,
}

} // verus!
