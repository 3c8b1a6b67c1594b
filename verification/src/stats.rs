//! Latency samples and aggregated distribution statistics.

use vstd::prelude::*;

verus! {

/// A single round-trip latency sample, in nanoseconds.
#[derive(Debug, Clone, Copy, PartialEq, Eq, PartialOrd, Ord, Hash)]
pub struct LatencyNs(u64);

impl View for LatencyNs {
    type V = u64;

    closed spec fn view(&self) -> u64 {
        self.0
    }
}

impl LatencyNs {
    /// Wrap a nanosecond measurement.
    pub fn new(ns: u64) -> (r: Self)
        ensures
            r@ == ns,
    {
        Self(ns)
    }

    /// The value in nanoseconds.
    pub fn get(self) -> (r: u64)
        ensures
            r == self@,
    {
        self.0
    }
}

/// Aggregated latency distribution for a run (all values in ns).
#[derive(Debug, Clone, Copy, PartialEq, Eq, Structural)]
pub struct LatencyStats {
    /// Number of recorded samples.
    pub samples: u64,
    /// Fastest round-trip.
    pub min_ns: u64,
    /// Arithmetic mean.
    pub mean_ns: u64,
    /// Median.
    pub p50_ns: u64,
    /// 90th percentile.
    pub p90_ns: u64,
    /// 99th percentile.
    pub p99_ns: u64,
    /// 99.9th percentile (tail latency).
    pub p999_ns: u64,
    /// Slowest round-trip.
    pub max_ns: u64,
}

/// The mean and the quantiles of a histogram, read at the fixed quantiles
/// 0.5, 0.9, 0.99 and 0.999 (the mean truncated to whole nanoseconds).
///
/// Reading a quantile takes a floating-point argument, so the reading is taken
/// by the caller and handed in whole.
#[derive(Debug, Clone, Copy, PartialEq, Eq, Structural)]
pub struct QuantileReading {
    /// Arithmetic mean.
    pub mean_ns: u64,
    /// Value at quantile 0.5.
    pub p50_ns: u64,
    /// Value at quantile 0.9.
    pub p90_ns: u64,
    /// Value at quantile 0.99.
    pub p99_ns: u64,
    /// Value at quantile 0.999.
    pub p999_ns: u64,
}

/// The exact measurements from which the throughput of a completed run is
/// derived: round-trips done, payload bytes sent, and the wall-clock time.
#[derive(Debug, Clone, Copy, PartialEq, Eq, Structural)]
pub struct ThroughputSample {
    /// Completed round-trips.
    pub requests: u64,
    /// Payload bytes moved in the request direction.
    pub bytes: u64,
    /// Wall-clock duration of the run, in nanoseconds.
    pub elapsed_ns: u64,
}

} // verus!
