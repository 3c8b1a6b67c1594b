//! HDR-histogram helpers for latency aggregation.
//!
//! `hdrhistogram` records values in a fixed range with constant relative
//! error, so percentile queries are cheap and memory is bounded.

use hdrhistogram::{AdditionError, CreationError, Histogram};
use vstd::multiset::Multiset;
use vstd::prelude::*;

use crate::stats::{LatencyStats, QuantileReading};

verus! {

/// A latency histogram: an HDR histogram of the `hdrhistogram` crate with
/// `u64` counters. What it holds is known to proofs through
/// `histogram_samples` and `histogram_bounds` alone; the struct is opaque to
/// proofs because the crate's histogram type is generic over a counter trait
/// that Verus cannot take as a bound.
#[verifier::external_body]
pub struct LatencyHistogram {
    /// The underlying HDR histogram. Read it for quantiles and the mean, which
    /// take floating point; record into it only through this module, whose
    /// contracts describe it.
    pub hdr: Histogram<u64>,
}

/// The error `hdrhistogram` reports for invalid construction bounds.
#[verifier::external_type_specification]
#[verifier::external_body]
pub struct ExCreationError(hdrhistogram::CreationError);

/// The error `hdrhistogram` reports when another histogram cannot be added.
#[verifier::external_type_specification]
#[verifier::external_body]
pub struct ExAdditionError(hdrhistogram::AdditionError);

/// The values recorded into a histogram so far, one occurrence per recording
/// (a value outside the trackable range may count as the bound it exceeds).
pub uninterp spec fn histogram_samples(h: LatencyHistogram) -> Multiset<u64>;

/// The bounds a histogram was made with: lowest discernible value, highest
/// trackable value, and significant figures.
pub uninterp spec fn histogram_bounds(h: LatencyHistogram) -> (u64, u64, u8);

/// Calls `Histogram::<u64>::new_with_bounds`.
///
/// Trusted: a histogram comes back empty, with the bounds it was given. The
/// source rejects a zero `low`, a `high` below `2 * low` and more than five
/// significant figures, and accepts `low == 1` with `high >= 2` and at most
/// five significant figures.
#[verifier::external_body]
fn new_with_bounds(low: u64, high: u64, sigfig: u8) -> (r: Result<LatencyHistogram, CreationError>)
    ensures
        r is Ok ==> histogram_samples(r->Ok_0) =~= Multiset::empty(),
        r is Ok ==> histogram_bounds(r->Ok_0) == (low, high, sigfig),
        (low == 1 && high >= 2 && sigfig <= 5) ==> r is Ok,
        (low < 1 || high < 2 * low || sigfig > 5) ==> r is Err,
{
    match Histogram::<u64>::new_with_bounds(low, high, sigfig) {
        Ok(hdr) => Ok(LatencyHistogram { hdr }),
        Err(e) => Err(e),
    }
}

/// Whether `after` holds the samples of `before` plus one recording of
/// `value` into a histogram with `bounds`: `value` itself when it lies within
/// the bounds, and otherwise `value` or the bound it exceeds.
pub open spec fn recorded_one(before: Multiset<u64>, after: Multiset<u64>, value: u64, bounds: (u64, u64, u8)) -> bool {
    if bounds.0 <= value <= bounds.1 {
        after == before.insert(value)
    } else if value > bounds.1 {
        after == before.insert(value) || after == before.insert(bounds.1)
    } else {
        after == before.insert(value) || after == before.insert(bounds.0)
    }
}

/// Calls `Histogram::saturating_record`.
///
/// Trusted: one more sample is recorded; a value within the bounds is
/// recorded as itself. A value outside them is recorded as itself where the
/// histogram's buckets can hold it, and otherwise clamped to the nearer bound;
/// which of the two happens is not stated. The bounds do not change.
#[verifier::external_body]
fn saturating_record(h: &mut LatencyHistogram, value: u64)
    ensures
        histogram_bounds(*final(h)) == histogram_bounds(*old(h)),
        histogram_samples(*final(h)).len() == histogram_samples(*old(h)).len() + 1,
        recorded_one(histogram_samples(*old(h)), histogram_samples(*final(h)), value, histogram_bounds(*old(h))),
{
    h.hdr.saturating_record(value)
}

/// Calls `Histogram::low`, `Histogram::high` and `Histogram::sigfig`.
///
/// Trusted: the three bounds the histogram was made with.
#[verifier::external_body]
fn read_bounds(h: &LatencyHistogram) -> (r: (u64, u64, u8))
    ensures
        r == histogram_bounds(*h),
{
    (h.hdr.low(), h.hdr.high(), h.hdr.sigfig())
}

/// Calls `Histogram::add` with a histogram made with the same bounds.
///
/// Trusted: between histograms of equal bounds the addition succeeds and the
/// target then holds the samples of both; its bounds do not change. Per-value
/// counters in the crate saturate at `u64::MAX`, which the sample model does
/// not show.
#[verifier::external_body]
fn add_histogram(h: &mut LatencyHistogram, source: &LatencyHistogram) -> (r: Result<(), AdditionError>)
    requires
        histogram_bounds(*source) == histogram_bounds(*old(h)),
    ensures
        r is Ok,
        histogram_bounds(*final(h)) == histogram_bounds(*old(h)),
        histogram_samples(*final(h)) == histogram_samples(*old(h)).add(histogram_samples(*source)),
{
    h.hdr.add(&source.hdr)
}

/// Calls `Histogram::len`.
///
/// Trusted: the number of recorded samples, saturated at `u64::MAX`.
#[verifier::external_body]
fn histogram_len(h: &LatencyHistogram) -> (r: u64)
    ensures
        histogram_samples(*h).len() <= u64::MAX ==> r == histogram_samples(*h).len(),
        histogram_samples(*h).len() > u64::MAX ==> r == u64::MAX,
{
    h.hdr.len()
}

/// Calls `Histogram::is_empty`.
///
/// Trusted: true exactly when no sample was recorded.
#[verifier::external_body]
fn histogram_is_empty(h: &LatencyHistogram) -> (r: bool)
    ensures
        r == (histogram_samples(*h).len() == 0),
{
    h.hdr.is_empty()
}

/// What `Histogram::lowest_equivalent` returns for `value` on a histogram made
/// with `bounds`: the lowest value counted together with `value`.
pub uninterp spec fn lowest_equivalent(bounds: (u64, u64, u8), value: u64) -> u64;

/// What `Histogram::highest_equivalent` returns for `value` on a histogram
/// made with `bounds`: the highest value counted together with `value`.
pub uninterp spec fn highest_equivalent(bounds: (u64, u64, u8), value: u64) -> u64;

/// The smallest of the recorded samples.
pub open spec fn smallest_sample(samples: Multiset<u64>) -> u64 {
    choose|m: u64| samples.contains(m) && forall|x: u64| samples.contains(x) ==> m <= x
}

/// The largest of the recorded samples.
pub open spec fn largest_sample(samples: Multiset<u64>) -> u64 {
    choose|m: u64| samples.contains(m) && forall|x: u64| samples.contains(x) ==> x <= m
}

/// The lowest recorded value level: the lowest value equivalent to the
/// smallest sample, or 0 for an empty histogram.
pub open spec fn min_level(samples: Multiset<u64>, bounds: (u64, u64, u8)) -> u64 {
    if samples.len() == 0 {
        0
    } else {
        lowest_equivalent(bounds, smallest_sample(samples))
    }
}

/// The highest recorded value level: the highest value equivalent to the
/// largest sample, or 0 for an empty histogram.
pub open spec fn max_level(samples: Multiset<u64>, bounds: (u64, u64, u8)) -> u64 {
    if samples.len() == 0 {
        0
    } else {
        highest_equivalent(bounds, largest_sample(samples))
    }
}

/// Bounds under which the highest recorded level is the highest equivalent of
/// the largest sample: a lowest discernible value of 1 (so a sample of 0 has
/// level 0), and a highest trackable value below `2^62` (so the top of the
/// histogram's range stays below `2^63`, where the levels do not saturate).
pub open spec fn exact_max_range(bounds: (u64, u64, u8)) -> bool {
    bounds.0 == 1 && bounds.1 < 0x4000000000000000u64
}

/// Calls `Histogram::min`.
///
/// Trusted: the lowest recorded value level, the lowest equivalent of the
/// smallest sample (0 when nothing was recorded); it is at most every sample.
#[verifier::external_body]
fn histogram_min(h: &LatencyHistogram) -> (r: u64)
    ensures
        histogram_samples(*h).len() == 0 ==> r == 0,
        histogram_samples(*h).len() > 0 ==> r == lowest_equivalent(
            histogram_bounds(*h),
            smallest_sample(histogram_samples(*h)),
        ),
        forall|x: u64| histogram_samples(*h).contains(x) ==> r <= x,
{
    h.hdr.min()
}

/// Calls `Histogram::max`.
///
/// Trusted: the highest recorded value level, at least every sample (0 when
/// nothing was recorded). With a lowest discernible value of 1 and a highest
/// trackable value below `2^62` it is the highest equivalent of the largest
/// sample. Otherwise the level is not stated: with a larger lowest value a
/// sample of 0 leaves the level at 0, and nearer `u64::MAX` the crate's level
/// arithmetic saturates.
#[verifier::external_body]
fn histogram_max(h: &LatencyHistogram) -> (r: u64)
    ensures
        histogram_samples(*h).len() == 0 ==> r == 0,
        histogram_samples(*h).len() > 0 && exact_max_range(histogram_bounds(*h)) ==> r
            == highest_equivalent(histogram_bounds(*h), largest_sample(histogram_samples(*h))),
        forall|x: u64| histogram_samples(*h).contains(x) ==> x <= r,
{
    h.hdr.max()
}

/// Lowest discernible value of the latency histograms (1 ns).
pub const HISTOGRAM_LOW: u64 = 1;
/// Highest trackable value of the latency histograms (about one hour, in ns).
pub const HISTOGRAM_HIGH: u64 = 3600000000000;
/// Significant figures kept by the latency histograms.
pub const HISTOGRAM_SIGFIG: u8 = 3;

/// The bounds of every latency histogram of the library.
pub open spec fn latency_bounds() -> (u64, u64, u8) {
    (HISTOGRAM_LOW, HISTOGRAM_HIGH, HISTOGRAM_SIGFIG)
}

/// The number of samples a histogram reports, saturated at `u64::MAX`.
pub open spec fn reported_len(samples: Multiset<u64>) -> u64 {
    if samples.len() <= u64::MAX {
        samples.len() as u64
    } else {
        u64::MAX
    }
}

/// Create an empty histogram spanning 1 ns to about one hour with three
/// significant figures.
pub fn new_histogram() -> (h: LatencyHistogram)
    ensures
        histogram_samples(h) =~= Multiset::empty(),
        histogram_bounds(h) == latency_bounds(),
{
    let r = new_with_bounds(HISTOGRAM_LOW, HISTOGRAM_HIGH, HISTOGRAM_SIGFIG);
    r.unwrap()
}

/// Record one latency sample into `h`.
pub fn record_latency(h: &mut LatencyHistogram, ns: u64)
    ensures
        histogram_bounds(*final(h)) == histogram_bounds(*old(h)),
        histogram_samples(*final(h)).len() == histogram_samples(*old(h)).len() + 1,
        recorded_one(histogram_samples(*old(h)), histogram_samples(*final(h)), ns, histogram_bounds(*old(h))),
{
    saturating_record(h, ns)
}

/// Add every sample of `source` into `h` when both were made with the same
/// bounds, and report whether they were; a histogram of other bounds is left
/// unmerged.
pub fn merge_into(h: &mut LatencyHistogram, source: &LatencyHistogram) -> (merged: bool)
    ensures
        merged == (histogram_bounds(*source) == histogram_bounds(*old(h))),
        histogram_bounds(*final(h)) == histogram_bounds(*old(h)),
        merged ==> histogram_samples(*final(h)) == histogram_samples(*old(h)).add(
            histogram_samples(*source),
        ),
        !merged ==> histogram_samples(*final(h)) == histogram_samples(*old(h)),
{
    let target = read_bounds(h);
    let other = read_bounds(source);
    if target.0 == other.0 && target.1 == other.1 && target.2 == other.2 {
        let _ = add_histogram(h, source);
        true
    } else {
        false
    }
}

/// Whether `stats` summarizes the `samples` recorded into a histogram made
/// with `bounds`: it counts them (saturated at `u64::MAX`), its minimum and
/// maximum are the histogram's lowest and highest recorded value levels (and
/// bracket every sample), and its mean and quantiles are those of `reading`.
pub open spec fn summarizes(
    stats: LatencyStats,
    samples: Multiset<u64>,
    bounds: (u64, u64, u8),
    reading: QuantileReading,
) -> bool {
    &&& stats.samples == reported_len(samples)
    &&& stats.min_ns == min_level(samples, bounds)
    &&& exact_max_range(bounds) ==> stats.max_ns == max_level(samples, bounds)
    &&& forall|x: u64| samples.contains(x) ==> stats.min_ns <= x && x <= stats.max_ns
    &&& stats.mean_ns == reading.mean_ns
    &&& stats.p50_ns == reading.p50_ns
    &&& stats.p90_ns == reading.p90_ns
    &&& stats.p99_ns == reading.p99_ns
    &&& stats.p999_ns == reading.p999_ns
}

/// Whether statistics are in order: min <= p50 <= p90 <= p99 <= p99.9 <= max
/// and min <= mean <= max.
pub open spec fn stats_in_order(s: LatencyStats) -> bool {
    &&& s.min_ns <= s.p50_ns <= s.p90_ns <= s.p99_ns <= s.p999_ns <= s.max_ns
    &&& s.min_ns <= s.mean_ns <= s.max_ns
}

/// Whether a reading lies in order between the levels `min` and `max`.
pub open spec fn reading_in_order(reading: QuantileReading, min: u64, max: u64) -> bool {
    &&& min <= reading.p50_ns <= reading.p90_ns <= reading.p99_ns <= reading.p999_ns <= max
    &&& min <= reading.mean_ns <= max
}

/// Derive summary statistics, returning `None` when no samples were recorded.
///
/// The mean and quantiles come from `reading`, taken on `h` by the caller.
pub fn stats_from_histogram(h: &LatencyHistogram, reading: &QuantileReading) -> (r: Option<LatencyStats>)
    ensures
        r is None <==> histogram_samples(*h).len() == 0,
        r is Some ==> summarizes(r->0, histogram_samples(*h), histogram_bounds(*h), *reading),
        r is Some ==> (stats_in_order(r->0) <==> reading_in_order(
            *reading,
            r->0.min_ns,
            r->0.max_ns,
        )),
{
    if histogram_is_empty(h) {
        return None;
    }
    Some(LatencyStats {
        samples: histogram_len(h),
        min_ns: histogram_min(h),
        mean_ns: reading.mean_ns,
        p50_ns: reading.p50_ns,
        p90_ns: reading.p90_ns,
        p99_ns: reading.p99_ns,
        p999_ns: reading.p999_ns,
        max_ns: histogram_max(h),
    })
}

} // verus!
