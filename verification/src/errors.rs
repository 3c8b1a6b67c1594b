//! Error values of the library.

use vstd::prelude::*;

verus! {

/// Raised when a benchmark parameter violates its invariant.
#[derive(Debug, Clone, Copy, PartialEq, Eq, Structural)]
pub enum InvalidParam {
    /// Payload size outside the accepted byte range.
    PayloadSize(u32),
    /// Connection count was zero.
    ZeroConnections,
    /// Request count was zero.
    ZeroRequests,
}

/// Failure at an adapter boundary (transport, repository, ...).
#[derive(Debug, Clone)]
pub enum PortError {
    /// A transport-level error (connection refused, reset, ...).
    Transport(String),
    /// The operation exceeded its deadline.
    Timeout,
    /// A requested entity was not found.
    NotFound,
    /// The dependency is temporarily unavailable.
    Unavailable(String),
}

impl PortError {
    /// Whether retrying after this error could plausibly succeed.
    pub open spec fn retryable(&self) -> bool {
        self is Transport || self is Timeout || self is Unavailable
    }

    /// Whether retrying the operation could plausibly succeed.
    pub fn is_retryable(&self) -> (r: bool)
        ensures
            r == self.retryable(),
    {
        match self {
            PortError::Transport(_) | PortError::Timeout | PortError::Unavailable(_) => true,
            PortError::NotFound => false,
        }
    }
}

/// Domain-level error surfaced by the engine.
#[derive(Debug, Clone)]
pub enum CoreError {
    /// The request was structurally invalid.
    Invalid(String),
    /// An underlying port failed.
    Port(PortError),
}

impl From<PortError> for CoreError {
    fn from(e: PortError) -> (r: Self) {
        CoreError::Port(e)
    }
}

impl vstd::std_specs::convert::FromSpecImpl<PortError> for CoreError {
    open spec fn obeys_from_spec() -> bool {
        true
    }

    open spec fn from_spec(e: PortError) -> CoreError {
        CoreError::Port(e)
    }
}

/// The wrapped operation did not complete within the allotted time.
#[derive(Debug, Clone, Copy, PartialEq, Eq)]
pub struct TimeoutError(pub std::time::Duration);

} // verus!
