use quicforge::echo::{check_echo, EchoMismatch};
use quicforge::errors::{CoreError, PortError};
use quicforge::events::RunEvent;
use quicforge::retry::{RetryBudget, RetryStep};
use quicforge::run::{FailureReason, RunId, RunStatus};
use quicforge::stats::{LatencyStats, ThroughputSample};

#[test]
fn generated_ids_are_random_v4_uuids() {
    let a = RunId::generate();
    let b = RunId::generate();
    assert_ne!(a, b);
    for id in [a, b] {
        let bits = id.as_u128();
        assert_eq!((bits >> 76) & 0xF, 4, "version nibble");
        assert_eq!((bits >> 62) & 0x3, 2, "variant bits");
    }
    assert_eq!(RunId::from_u128(42).as_u128(), 42);
}

#[test]
fn failure_reasons_display_snake_case() {
    assert_eq!(FailureReason::ConnectTimeout.as_str(), "connect_timeout");
    assert_eq!(FailureReason::ConnectionLost.as_str(), "connection_lost");
    assert_eq!(FailureReason::Io.as_str(), "io");
    assert_eq!(FailureReason::Internal.as_str(), "internal");
}

#[test]
fn run_status_fields() {
    assert_eq!(RunStatus::Pending.state_name(), "pending");
    assert_eq!(RunStatus::Running { completed: 7 }.state_name(), "running");
    assert_eq!(RunStatus::Completed.state_name(), "completed");
    let failed = RunStatus::Failed { reason: FailureReason::Io };
    assert_eq!(failed.state_name(), "failed");
    assert_eq!(RunStatus::Running { completed: 7 }.completed(), Some(7));
    assert_eq!(RunStatus::Completed.completed(), None);
    assert_eq!(failed.failure_reason(), Some(FailureReason::Io));
    assert_eq!(RunStatus::Pending.failure_reason(), None);
}

#[test]
fn retryable_port_errors() {
    assert!(PortError::Transport("reset".to_string()).is_retryable());
    assert!(PortError::Timeout.is_retryable());
    assert!(PortError::Unavailable("busy".to_string()).is_retryable());
    assert!(!PortError::NotFound.is_retryable());
    assert!(matches!(CoreError::from(PortError::Timeout), CoreError::Port(PortError::Timeout)));
}

#[test]
fn retry_budget_exhausts_attempts() {
    let mut budget = RetryBudget::new(3);
    assert_eq!(budget.attempt(), 0);
    assert_eq!(budget.after_failure(true), RetryStep::Retry { attempt: 1 });
    assert_eq!(budget.after_failure(true), RetryStep::Retry { attempt: 2 });
    assert_eq!(budget.after_failure(true), RetryStep::GiveUp);
    assert_eq!(budget.attempt(), 3);
}

#[test]
fn retry_budget_stops_on_non_retryable() {
    let mut budget = RetryBudget::new(5);
    assert_eq!(budget.after_failure(false), RetryStep::GiveUp);
    assert_eq!(budget.attempt(), 1);
}

#[test]
fn retry_budget_zero_allows_one_attempt() {
    let mut budget = RetryBudget::new(0);
    assert_eq!(budget.attempt(), 0);
    assert_eq!(budget.after_failure(true), RetryStep::GiveUp);
    assert_eq!(budget.attempt(), 1);
}

#[test]
fn event_id_kind_and_fields() {
    let id = RunId::from_u128(9);
    let started = RunEvent::Started { id, total: 10, at: 5 };
    assert_eq!(started.id(), id);
    assert_eq!(started.kind(), "started");
    let f = started.fields();
    assert_eq!((f.total, f.completed, f.at), (Some(10), None, 5));

    let progress = RunEvent::Progress { id, completed: 3, total: 10, at: 6 };
    assert_eq!(progress.kind(), "progress");
    assert_eq!(progress.fields().completed, Some(3));

    let stats = LatencyStats {
        samples: 1,
        min_ns: 1,
        mean_ns: 1,
        p50_ns: 1,
        p90_ns: 1,
        p99_ns: 1,
        p999_ns: 1,
        max_ns: 1,
    };
    let throughput = ThroughputSample { requests: 1, bytes: 2, elapsed_ns: 3 };
    let completed = RunEvent::Completed { id, stats, throughput, at: 7 };
    assert_eq!(completed.kind(), "completed");
    assert_eq!(completed.fields().stats, Some(stats));
    assert_eq!(completed.fields().throughput, Some(throughput));

    let failed = RunEvent::Failed { id, reason: FailureReason::Io, at: 8 };
    assert_eq!(failed.kind(), "failed");
    assert_eq!(failed.id(), id);
    assert_eq!(failed.fields().failure_reason, Some(FailureReason::Io));
    assert_eq!(failed.fields().total, None);
}

#[test]
fn run_status_serializes_tagged() {
    let json = RunStatus::Running { completed: 7 }.to_json();
    assert_eq!(json, r#"{"state":"running","completed":7}"#);
    let failed = RunStatus::Failed { reason: FailureReason::ConnectTimeout }.to_json();
    assert_eq!(failed, r#"{"state":"failed","reason":"connect_timeout"}"#);
}

#[test]
fn run_status_json_forms() {
    assert_eq!(RunStatus::Pending.to_json(), r#"{"state":"pending"}"#);
    assert_eq!(RunStatus::Completed.to_json(), r#"{"state":"completed"}"#);
    assert_eq!(
        RunStatus::Running { completed: 0 }.to_json(),
        r#"{"state":"running","completed":0}"#
    );
    assert_eq!(
        RunStatus::Running { completed: u64::MAX }.to_json(),
        format!(r#"{{"state":"running","completed":{}}}"#, u64::MAX)
    );
}

#[test]
fn run_ids_parse_and_print() {
    let text = "67e55044-10b1-426f-9247-bb680e5fe0c8";
    let id = RunId::parse(text).unwrap();
    assert_eq!(id.as_u128(), 0x67e55044_10b1_426f_9247_bb680e5fe0c8);
    assert_eq!(id.to_text(), text);
    assert!(RunId::parse("not-a-uuid").is_err());
    let fresh = RunId::generate();
    assert_eq!(RunId::parse(&fresh.to_text()).unwrap(), fresh);
}

#[test]
fn echo_length_is_checked() {
    assert_eq!(check_echo(10, 10), Ok(()));
    assert_eq!(check_echo(10, 3), Err(EchoMismatch { sent: 10, received: 3 }));
}
