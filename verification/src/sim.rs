//! The loopback (in-process) connector: completes round-trips without touching
//! the network, optionally after a fixed delay.

use std::time::Duration;

use vstd::prelude::*;

verus! {

/// A connector whose connections complete round-trips in-process.
#[derive(Debug, Clone)]
pub struct LoopbackConnector {
    delay: Option<Duration>,
}

impl LoopbackConnector {
    /// The delay each round-trip sleeps, if any.
    pub closed spec fn spec_delay(&self) -> Option<Duration> {
        self.delay
    }

    /// A connector with instant round-trips.
    pub fn new() -> (r: Self)
        ensures
            r.spec_delay() is None,
    {
        Self { delay: None }
    }

    /// A connector that sleeps `delay` on each round-trip (to model latency).
    pub fn with_delay(delay: Duration) -> (r: Self)
        ensures
            r.spec_delay() == Some(delay),
    {
        Self { delay: Some(delay) }
    }

    /// The delay each round-trip sleeps, if any.
    pub fn delay(&self) -> (r: Option<Duration>)
        ensures
            r == self.spec_delay(),
    {
        self.delay
    }
}

impl Default for LoopbackConnector {
    fn default() -> (r: Self)
        ensures
            r.spec_delay() is None,
    {
        Self::new()
    }
}

} // verus!
