//! Retry bookkeeping: how many attempts an operation gets, and when to stop.

use vstd::prelude::*;

verus! {

/// What to do after a failed attempt.
#[derive(Debug, Clone, Copy, PartialEq, Eq, Structural)]
pub enum RetryStep {
    /// Try again; `attempt` is the zero-based index of the next attempt
    /// (equally, the one-based number of the retry, which sets its delay).
    Retry { attempt: u32 },
    /// Stop and report the last error.
    GiveUp,
}

/// Counts failed attempts of an operation against a maximum.
///
/// A maximum of zero still allows the first attempt.
#[derive(Debug, Clone, Copy)]
pub struct RetryBudget {
    max_attempts: u32,
    failures: u32,
}

/// The number of attempts a maximum allows: at least one.
pub open spec fn allowed_attempts(max_attempts: u32) -> nat {
    if max_attempts == 0 {
        1
    } else {
        max_attempts as nat
    }
}

impl RetryBudget {
    /// Well-formedness: failures never exceed the attempts allowed.
    pub closed spec fn wf(self) -> bool {
        self.failures <= allowed_attempts(self.max_attempts)
    }

    /// The configured maximum number of attempts.
    pub closed spec fn max_attempts(self) -> u32 {
        self.max_attempts
    }

    /// The number of attempts that have failed so far.
    pub closed spec fn failures(self) -> u32 {
        self.failures
    }

    /// A budget for an operation that may be attempted `max_attempts` times.
    pub fn new(max_attempts: u32) -> (r: Self)
        ensures
            r.wf(),
            r.max_attempts() == max_attempts,
            r.failures() == 0,
    {
        RetryBudget { max_attempts, failures: 0 }
    }

    /// The zero-based index of the next attempt.
    pub fn attempt(&self) -> (r: u32)
        ensures
            r == self.failures(),
    {
        self.failures
    }

    /// Record a failed attempt whose error is `retryable` or not, and decide
    /// whether to try again.
    ///
    /// The operation is retried only while fewer attempts than the maximum
    /// have been made and the error is retryable.
    pub fn after_failure(&mut self, retryable: bool) -> (r: RetryStep)
        requires
            old(self).wf(),
            old(self).failures() < allowed_attempts(old(self).max_attempts()),
        ensures
            final(self).wf(),
            final(self).max_attempts() == old(self).max_attempts(),
            final(self).failures() == old(self).failures() + 1,
            r is GiveUp <==> (final(self).failures() >= old(self).max_attempts() || !retryable),
            r is Retry ==> r->attempt == final(self).failures()
                && final(self).failures() < allowed_attempts(final(self).max_attempts()),
            final(self).failures() <= allowed_attempts(final(self).max_attempts()),
    {
        self.failures = self.failures + 1;
        if self.failures >= self.max_attempts || !retryable {
            RetryStep::GiveUp
        } else {
            RetryStep::Retry { attempt: self.failures }
        }
    }
}

} // verus!
