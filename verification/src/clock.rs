//! The system wall clock.

use vstd::prelude::*;

verus! {

/// A clock backed by the operating system's wall clock (read by the caller).
#[derive(Debug, Default, Clone, Copy)]
pub struct SystemClock;

} // verus!
