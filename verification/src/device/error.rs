//! Errors of the device's HTTP request building and response parsing.
use vstd::prelude::*;

verus! {

/// Errors that can occur during HTTP request building or response parsing.
#[derive(Debug, Clone, Copy, PartialEq, Eq, Structural)]
pub enum HttpError {
    /// Failed to deserialize the response body or headers.
    Deserialization,
    /// General failure when parsing HTTP response structure.
    GenericParseError,
    /// A fixed-capacity buffer exceeded its capacity.
    BufferOverflow,
}

/// The human-readable description of an error.
pub open spec fn http_error_text(e: HttpError) -> Seq<char> {
    match e {
        HttpError::Deserialization => "Failed to deserialize response"@,
        HttpError::GenericParseError => "Failed to parse response"@,
        HttpError::BufferOverflow => "Buffer capacity exceeded"@,
    }
}

impl HttpError {
    /// The human-readable description of the error.
    pub fn message(&self) -> (m: &'static str)
        ensures
            m@ == http_error_text(*self),
    {
        match self {
            HttpError::Deserialization => "Failed to deserialize response",
            HttpError::GenericParseError => "Failed to parse response",
            HttpError::BufferOverflow => "Buffer capacity exceeded",
        }
    }
}

/// Every error has a message of its own, and none is empty.
pub proof fn lemma_messages_distinct_and_non_empty(a: HttpError, b: HttpError)
    ensures
        http_error_text(a).len() > 0,
        a != b ==> http_error_text(a) != http_error_text(b),
{
    reveal_strlit("Failed to deserialize response");
    reveal_strlit("Failed to parse response");
    reveal_strlit("Buffer capacity exceeded");
    if a != b && http_error_text(a) == http_error_text(b) {
        assert(http_error_text(a).len() == http_error_text(b).len());
        assert(http_error_text(a)[0] == http_error_text(b)[0]);
        assert(http_error_text(a)[7] == http_error_text(b)[7]);
    }
}

} // verus!
