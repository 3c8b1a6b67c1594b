use quicforge::engine::{
    conclude_run, connect_failure_reason, connection_workers, start_run, ConnectionWorker, EngineConfig, RunAggregate,
    WorkerAction, WorkerOutcome,
};
use quicforge::errors::PortError;
use quicforge::events::RunEvent;
use quicforge::histo::LatencyHistogram;
use quicforge::params::{BenchParams, ConnectionCount, PayloadSize, RequestCount, TargetAddr, TargetIp};
use quicforge::run::{FailureReason, RunId, RunStatus};
use quicforge::stats::{QuantileReading, ThroughputSample};

fn params(connections: u32, requests: u64) -> BenchParams {
    BenchParams::new(
        TargetAddr { ip: TargetIp::V4(0x7f00_0001), port: 9000 },
        ConnectionCount::new(connections).unwrap(),
        RequestCount::new(requests).unwrap(),
        PayloadSize::new(128).unwrap(),
    )
}

fn reading(h: &LatencyHistogram) -> QuantileReading {
    QuantileReading {
        mean_ns: h.hdr.mean() as u64,
        p50_ns: h.hdr.value_at_quantile(0.50),
        p90_ns: h.hdr.value_at_quantile(0.90),
        p99_ns: h.hdr.value_at_quantile(0.99),
        p999_ns: h.hdr.value_at_quantile(0.999),
    }
}

/// Drive one worker whose connection and round-trips all succeed.
fn finished_worker(config: &EngineConfig, params: &BenchParams) -> WorkerOutcome {
    let mut worker = ConnectionWorker::new(config, params);
    let mut action = worker.on_connect(Ok(()));
    let mut ns = 1000;
    while action == WorkerAction::RoundTrip {
        action = worker.on_round_trip(Some(ns));
        ns += 10;
    }
    assert_eq!(action, WorkerAction::Finish);
    WorkerOutcome::Finished(worker.into_histogram())
}

#[test]
fn engine_config_defaults() {
    let c = EngineConfig::default();
    assert_eq!(c.connect_timeout, std::time::Duration::from_secs(5));
    assert_eq!(c.request_timeout, std::time::Duration::from_secs(2));
    assert_eq!(c.connect_retries, 3);
}

#[test]
fn run_completes_and_aggregates_all_samples() {
    let config = EngineConfig::default();
    let p = params(2, 3);
    let id = RunId::from_u128(1);
    let (summary, started) = start_run(id, p, 100);
    assert_eq!(summary.status, RunStatus::Running { completed: 0 });
    assert_eq!(started, RunEvent::Started { id, total: 6, at: 100 });

    let outcomes = vec![finished_worker(&config, &p), finished_worker(&config, &p)];
    let agg = RunAggregate::collect(outcomes);
    assert_eq!(agg.first_error(), None);
    let r = reading(agg.merged());
    let (summary, event) = conclude_run(summary, &agg, &r, 2_000, 200);
    assert_eq!(summary.status, RunStatus::Completed);
    assert_eq!(summary.stats.unwrap().samples, 6);
    assert_eq!(
        summary.throughput,
        Some(ThroughputSample { requests: 6, bytes: 6 * 128, elapsed_ns: 2_000 })
    );
    assert_eq!(summary.finished_at, Some(200));
    assert_eq!(event.kind(), "completed");
}

#[test]
fn connect_failure_marks_run_failed() {
    let config = EngineConfig { connect_retries: 1, ..EngineConfig::default() };
    let p = params(1, 5);
    let mut worker = ConnectionWorker::new(&config, &p);
    let action = worker.on_connect(Err(PortError::Timeout));
    assert_eq!(
        action,
        WorkerAction::Abort { reason: FailureReason::ConnectTimeout, close: false }
    );
    let (summary, _) = start_run(RunId::from_u128(2), p, 0);
    let agg = RunAggregate::collect(vec![WorkerOutcome::Failed(
        FailureReason::ConnectTimeout,
        worker.into_histogram(),
    )]);
    let r = reading(agg.merged());
    let (summary, event) = conclude_run(summary, &agg, &r, 10, 1);
    assert_eq!(summary.status, RunStatus::Failed { reason: FailureReason::ConnectTimeout });
    assert_eq!(summary.stats, None);
    assert_eq!(
        event,
        RunEvent::Failed { id: RunId::from_u128(2), reason: FailureReason::ConnectTimeout, at: 1 }
    );
}

#[test]
fn worker_retries_retryable_connect_errors() {
    let config = EngineConfig::default();
    let p = params(1, 2);
    let mut worker = ConnectionWorker::new(&config, &p);
    let transient = PortError::Transport("refused".to_string());
    assert_eq!(worker.on_connect(Err(transient.clone())), WorkerAction::Connect { attempt: 1 });
    assert_eq!(worker.on_connect(Err(transient.clone())), WorkerAction::Connect { attempt: 2 });
    assert_eq!(
        worker.on_connect(Err(transient)),
        WorkerAction::Abort { reason: FailureReason::ConnectionLost, close: false }
    );
}

#[test]
fn worker_gives_up_on_non_retryable_error() {
    let config = EngineConfig::default();
    let mut worker = ConnectionWorker::new(&config, &params(1, 2));
    assert_eq!(
        worker.on_connect(Err(PortError::NotFound)),
        WorkerAction::Abort { reason: FailureReason::ConnectionLost, close: false }
    );
}

#[test]
fn failed_round_trip_aborts_with_io() {
    let config = EngineConfig::default();
    let mut worker = ConnectionWorker::new(&config, &params(1, 3));
    assert_eq!(worker.on_connect(Ok(())), WorkerAction::RoundTrip);
    assert_eq!(worker.on_round_trip(Some(10)), WorkerAction::RoundTrip);
    assert_eq!(
        worker.on_round_trip(None),
        WorkerAction::Abort { reason: FailureReason::Io, close: true }
    );
}

#[test]
fn first_failure_wins_and_partial_stats_are_kept() {
    let config = EngineConfig::default();
    let p = params(3, 2);
    let mut failing = ConnectionWorker::new(&config, &p);
    assert_eq!(failing.on_connect(Ok(())), WorkerAction::RoundTrip);
    assert_eq!(failing.on_round_trip(Some(5_000)), WorkerAction::RoundTrip);
    assert_eq!(
        failing.on_round_trip(None),
        WorkerAction::Abort { reason: FailureReason::Io, close: true }
    );
    let outcomes = vec![
        finished_worker(&config, &p),
        WorkerOutcome::Failed(FailureReason::Io, failing.into_histogram()),
        WorkerOutcome::Crashed,
    ];
    let agg = RunAggregate::collect(outcomes);
    assert_eq!(agg.first_error(), Some(FailureReason::Io));
    let (summary, _) = start_run(RunId::from_u128(3), p, 0);
    let r = reading(agg.merged());
    let (summary, event) = conclude_run(summary, &agg, &r, 10, 1);
    assert_eq!(summary.status, RunStatus::Failed { reason: FailureReason::Io });
    // Two from the finished worker and one recorded before the failure.
    assert_eq!(summary.stats.unwrap().samples, 3);
    assert_eq!(summary.throughput, None);
    assert_eq!(event.kind(), "failed");

    let crashed_first = RunAggregate::collect(vec![WorkerOutcome::Crashed]);
    assert_eq!(crashed_first.first_error(), Some(FailureReason::Internal));
}

#[test]
fn run_without_samples_fails_internally() {
    let (summary, _) = start_run(RunId::from_u128(4), params(1, 1), 0);
    let agg = RunAggregate::collect(Vec::new());
    let r = reading(agg.merged());
    let (summary, event) = conclude_run(summary, &agg, &r, 10, 1);
    assert_eq!(summary.status, RunStatus::Failed { reason: FailureReason::Internal });
    assert_eq!(event.kind(), "failed");
}

#[test]
fn connect_failure_reasons() {
    assert_eq!(connect_failure_reason(&PortError::Timeout), FailureReason::ConnectTimeout);
    assert_eq!(connect_failure_reason(&PortError::NotFound), FailureReason::ConnectionLost);
}

#[test]
fn failed_worker_keeps_its_samples() {
    let config = EngineConfig::default();
    let p = params(1, 3);
    let mut worker = ConnectionWorker::new(&config, &p);
    assert_eq!(worker.on_connect(Ok(())), WorkerAction::RoundTrip);
    assert_eq!(worker.on_round_trip(Some(700)), WorkerAction::RoundTrip);
    assert_eq!(
        worker.on_round_trip(None),
        WorkerAction::Abort { reason: FailureReason::Io, close: true }
    );
    let agg = RunAggregate::collect(vec![WorkerOutcome::Failed(
        FailureReason::Io,
        worker.into_histogram(),
    )]);
    let (summary, _) = start_run(RunId::from_u128(5), p, 0);
    let r = reading(agg.merged());
    let (summary, event) = conclude_run(summary, &agg, &r, 10, 1);
    assert_eq!(summary.status, RunStatus::Failed { reason: FailureReason::Io });
    let stats = summary.stats.expect("a recorded round-trip gives statistics");
    assert_eq!(stats.samples, 1);
    assert!(stats.min_ns <= 700 && 700 <= stats.max_ns);
    assert_eq!(summary.throughput, None);
    assert_eq!(event, RunEvent::Failed { id: RunId::from_u128(5), reason: FailureReason::Io, at: 1 });
}

#[test]
fn one_worker_per_connection() {
    let config = EngineConfig::default();
    let p = params(3, 4);
    let workers = connection_workers(&config, &p);
    assert_eq!(workers.len(), 3);
    let mut outcomes = Vec::new();
    for mut w in workers {
        let mut action = w.on_connect(Ok(()));
        while action == WorkerAction::RoundTrip {
            action = w.on_round_trip(Some(100));
        }
        assert_eq!(action, WorkerAction::Finish);
        outcomes.push(WorkerOutcome::Finished(w.into_histogram()));
    }
    let agg = RunAggregate::collect(outcomes);
    let r = reading(agg.merged());
    let (summary, _) = start_run(RunId::from_u128(6), p, 0);
    let (summary, _) = conclude_run(summary, &agg, &r, 1_000, 5);
    assert_eq!(summary.status, RunStatus::Completed);
    assert_eq!(summary.stats.unwrap().samples, 12);
    assert_eq!(summary.throughput.unwrap().requests, 12);
}
