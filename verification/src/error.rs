//! The failures the cache layer can meet, and which of them a caller ever sees.

use vstd::prelude::*;
use vstd::string::StringExecFns;

verus! {

/// Why a cache operation did not yield a value.
#[derive(Clone, Copy, Debug, PartialEq, Eq, Structural)]
pub enum CacheError {
    /// The store could not be reached, refused the credentials, or answered
    /// with an error.
    StoreUnavailable,
    /// The store answered with a reply of the wrong shape.
    StoreMalformed,
    /// The upstream lookup failed.
    UpstreamFailure,
    /// A cached payload could not be turned back into a value.
    SerializationFailure,
}

impl CacheError {
    /// Absorbed errors never reach the caller: the cache treats them as a
    /// miss and recomputes. Only an upstream failure may surface.
    pub open spec fn absorbed(self) -> bool {
        !(self is UpstreamFailure)
    }

    /// Whether the cache boundary swallows this error and falls back to
    /// computing the value.
    pub fn is_absorbed(&self) -> (yes: bool)
        ensures
            yes == self.absorbed(),
    {
        match self {
            CacheError::UpstreamFailure => false,
            _ => true,
        }
    }

    /// The text that names this error in logs.
    pub open spec fn label(self) -> Seq<char> {
        match self {
            CacheError::StoreUnavailable => "store unavailable"@,
            CacheError::StoreMalformed => "malformed store reply"@,
            CacheError::UpstreamFailure => "upstream lookup failed"@,
            CacheError::SerializationFailure => "cached payload unreadable"@,
        }
    }

    /// A short description for logs.
    pub fn describe(&self) -> (text: String)
        ensures
            text@ == self.label(),
    {
        match self {
            CacheError::StoreUnavailable => String::from_str("store unavailable"),
            CacheError::StoreMalformed => String::from_str("malformed store reply"),
            CacheError::UpstreamFailure => String::from_str("upstream lookup failed"),
            CacheError::SerializationFailure => String::from_str("cached payload unreadable"),
        }
    }
}

/// What a handler answers with where a list of results could not be had:
/// the failure is not passed on, the list is empty.
pub fn or_no_results<T>(outcome: Result<Vec<T>, CacheError>) -> (results: Vec<T>)
    ensures
        outcome matches Ok(found) ==> results == found,
        outcome is Err ==> results@.len() == 0,
{
    match outcome {
        Ok(found) => found,
        Err(_) => Vec::new(),
    }
}

/// Renders any displayable error as the text its `Display` impl writes.
pub fn stringify_error<E: std::fmt::Debug + std::fmt::Display>(e: E) -> (text: String)
    ensures
        vstd::string::to_string_from_display_ensures::<E>(&e, text),
{
    e.to_string()
}

} // verus!
