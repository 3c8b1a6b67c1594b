use quicforge::histo::{merge_into, new_histogram, record_latency, stats_from_histogram, LatencyHistogram};
use quicforge::stats::{LatencyNs, QuantileReading};

fn reading(h: &LatencyHistogram) -> QuantileReading {
    QuantileReading {
        mean_ns: h.hdr.mean() as u64,
        p50_ns: h.hdr.value_at_quantile(0.50),
        p90_ns: h.hdr.value_at_quantile(0.90),
        p99_ns: h.hdr.value_at_quantile(0.99),
        p999_ns: h.hdr.value_at_quantile(0.999),
    }
}

#[test]
fn empty_histogram_has_no_stats() {
    let h = new_histogram();
    assert!(stats_from_histogram(&h, &reading(&h)).is_none());
}

#[test]
fn records_and_summarizes() {
    let mut h = new_histogram();
    for ns in 1..=1000u64 {
        record_latency(&mut h, ns * 1000);
    }
    let stats = stats_from_histogram(&h, &reading(&h)).unwrap();
    assert_eq!(stats.samples, 1000);
    assert!(stats.min_ns <= stats.p50_ns);
    assert!(stats.p50_ns <= stats.p99_ns);
    assert!(stats.p99_ns <= stats.max_ns);
}

#[test]
fn stats_bracket_recorded_values() {
    let mut h = new_histogram();
    record_latency(&mut h, 500);
    record_latency(&mut h, 700);
    let r = reading(&h);
    let stats = stats_from_histogram(&h, &r).unwrap();
    assert_eq!(stats.samples, 2);
    assert!(stats.min_ns <= 500);
    assert!(stats.max_ns >= 700);
    assert_eq!(stats.mean_ns, r.mean_ns);
    assert_eq!(stats.p50_ns, r.p50_ns);
    assert_eq!(stats.p999_ns, r.p999_ns);
}

#[test]
fn merging_adds_sample_counts() {
    let mut a = new_histogram();
    let mut b = new_histogram();
    for ns in 1..=3u64 {
        record_latency(&mut a, ns);
    }
    for ns in 1..=4u64 {
        record_latency(&mut b, ns * 10);
    }
    assert!(merge_into(&mut a, &b));
    assert_eq!(a.hdr.len(), 7);
    let stats = stats_from_histogram(&a, &reading(&a)).unwrap();
    assert_eq!(stats.samples, 7);
}

#[test]
fn oversized_sample_is_clamped_and_counted() {
    let mut h = new_histogram();
    record_latency(&mut h, u64::MAX);
    assert_eq!(h.hdr.len(), 1);
    assert!(h.hdr.max() >= 3_600_000_000_000);
}

#[test]
fn latency_ns_round_trips() {
    let l = LatencyNs::new(1_500_000);
    assert_eq!(l.get(), 1_500_000);
}

#[test]
fn stats_report_the_histogram_levels() {
    let mut h = new_histogram();
    for ns in [1_234_567u64, 42, 9_999_999] {
        record_latency(&mut h, ns);
    }
    let stats = stats_from_histogram(&h, &reading(&h)).unwrap();
    assert_eq!(stats.min_ns, h.hdr.min());
    assert_eq!(stats.max_ns, h.hdr.max());
    assert_eq!(stats.min_ns, h.hdr.lowest_equivalent(42));
    assert_eq!(stats.max_ns, h.hdr.highest_equivalent(9_999_999));
}

#[test]
fn histograms_of_other_bounds_are_not_merged() {
    let mut a = new_histogram();
    record_latency(&mut a, 10);
    let mut other = LatencyHistogram { hdr: hdrhistogram::Histogram::new_with_bounds(1000, 2000, 3).unwrap() };
    other.hdr.saturating_record(0);
    assert!(!merge_into(&mut a, &other));
    assert_eq!(a.hdr.len(), 1);
    // A sample of 0 leaves the level of a histogram with a lowest value above 1 at 0.
    let stats = stats_from_histogram(&other, &reading(&other)).unwrap();
    assert_eq!(stats.max_ns, 0);
}

#[test]
fn stats_of_a_reading_are_in_order() {
    let mut h = new_histogram();
    for ns in [5_000u64, 7_000, 9_000, 11_000] {
        record_latency(&mut h, ns);
    }
    let s = stats_from_histogram(&h, &reading(&h)).unwrap();
    assert!(s.min_ns <= s.p50_ns && s.p50_ns <= s.p90_ns && s.p90_ns <= s.p99_ns);
    assert!(s.p99_ns <= s.p999_ns && s.p999_ns <= s.max_ns);
    assert!(s.min_ns <= s.mean_ns && s.mean_ns <= s.max_ns);
}
