//! The ways a summarization can fail.
use vstd::prelude::*;

verus! {

/// A failure of summarization, one variant per kind, each open to inspection.
#[derive(Debug, Clone, PartialEq, Eq)]
pub enum SummarizeError {
    /// The cloud backend was asked for a summary without an API key.
    MissingApiKey,
    /// The configuration names a backend that does not exist.
    UnknownProvider { name: String },
    /// The request did not reach the backend or no reply came back
    /// (connection refused, name resolution, timeout).
    Transport { detail: String },
    /// The backend answered with a status outside 200..=299 (other than a
    /// rate limit that is still being retried). `body` is the reply text
    /// where the backend's reply is read, and empty otherwise.
    UpstreamStatus { status: u16, body: String },
    /// The cloud backend kept answering 429 after every retry.
    RateLimitExhausted { body: String },
    /// The reply is not JSON, or lacks the text field that holds the message.
    MalformedResponse,
    /// Nothing is left of the reply once it is cleaned.
    EmptyGeneration,
}

/// Whether `status` is a success status (200..=299).
pub open spec fn is_success(status: u16) -> bool {
    200 <= status <= 299
}

/// Whether `status` is a success status (200..=299).
pub fn status_is_success(status: u16) -> (r: bool)
    ensures
        r == is_success(status),
{
    200 <= status && status <= 299
}

} // verus!
