//! Durations of std, as the library's configuration uses them.

use std::time::Duration;

use vstd::prelude::*;

verus! {

/// The duration that `Duration::from_secs` makes of a number of whole seconds.
pub uninterp spec fn duration_from_secs(secs: u64) -> Duration;

/// Calls `Duration::from_secs`.
///
/// Trusted: the result depends on `secs` alone (std documents it as the
/// duration of that many whole seconds).
#[verifier::external_body]
pub(crate) fn from_secs(secs: u64) -> (d: Duration)
    ensures
        d == duration_from_secs(secs),
{
    Duration::from_secs(secs)
}

} // verus!
