use quicforge::params::{BenchParams, ConnectionCount, PayloadSize, RequestCount, TargetAddr, TargetIp};
use quicforge::repo::MemoryRunRepository;
use quicforge::run::{RunId, RunStatus, RunSummary};

fn summary(id: u128, started_at: i128) -> RunSummary {
    RunSummary {
        id: RunId::from_u128(id),
        params: BenchParams::new(
            TargetAddr { ip: TargetIp::V4(0x7f00_0001), port: 9000 },
            ConnectionCount::new(1).unwrap(),
            RequestCount::new(10).unwrap(),
            PayloadSize::default(),
        ),
        status: RunStatus::Running { completed: 0 },
        stats: None,
        throughput: None,
        started_at,
        finished_at: None,
    }
}

#[test]
fn save_get_update_replaces_in_place() {
    let mut repo = MemoryRunRepository::new();
    let mut s = summary(1, 1_000);
    repo.save(&s);
    assert_eq!(repo.len(), 1);

    s.status = RunStatus::Completed;
    repo.update(&s);
    assert_eq!(repo.len(), 1, "update must not append a new row");

    let fetched = repo.get(s.id).unwrap();
    assert_eq!(fetched.status, RunStatus::Completed);
}

#[test]
fn list_recent_orders_by_start_desc() {
    let mut repo = MemoryRunRepository::new();
    let older = summary(1, 1_000_000 - 10_000_000);
    let newer = summary(2, 1_000_000);
    repo.save(&older);
    repo.save(&newer);

    let recent = repo.list_recent(10);
    assert_eq!(recent[0].id, newer.id);
    assert_eq!(recent.len(), 2);
}

#[test]
fn update_of_unknown_run_appends() {
    let mut repo = MemoryRunRepository::new();
    assert!(repo.is_empty());
    repo.update(&summary(5, 0));
    assert_eq!(repo.len(), 1);
    assert!(!repo.is_empty());
    assert_eq!(repo.get(RunId::from_u128(5)).unwrap().id, RunId::from_u128(5));
    assert!(repo.get(RunId::from_u128(6)).is_none());
}

#[test]
fn list_recent_is_stable_and_truncated() {
    let mut repo = MemoryRunRepository::new();
    repo.save(&summary(1, 50));
    repo.save(&summary(2, 70));
    repo.save(&summary(3, 50));
    repo.save(&summary(4, 90));
    let ids: Vec<u128> = repo.list_recent(10).iter().map(|s| s.id.as_u128()).collect();
    assert_eq!(ids, vec![4, 2, 1, 3]);
    let top: Vec<u128> = repo.list_recent(2).iter().map(|s| s.id.as_u128()).collect();
    assert_eq!(top, vec![4, 2]);
    assert!(repo.list_recent(0).is_empty());
}

#[test]
fn update_leaves_other_runs() {
    let mut repo = MemoryRunRepository::new();
    repo.save(&summary(1, 1));
    repo.save(&summary(2, 2));
    let mut s = summary(2, 2);
    s.status = RunStatus::Completed;
    repo.update(&s);
    assert_eq!(repo.get(RunId::from_u128(1)).unwrap().status, RunStatus::Running { completed: 0 });
    assert_eq!(repo.get(RunId::from_u128(2)).unwrap().status, RunStatus::Completed);
}

#[test]
fn list_recent_orders_within_a_microsecond() {
    let mut repo = MemoryRunRepository::new();
    repo.save(&summary(1, 1_000_000_100));
    repo.save(&summary(2, 1_000_000_900));
    let ids: Vec<u128> = repo.list_recent(2).iter().map(|s| s.id.as_u128()).collect();
    assert_eq!(ids, vec![2, 1]);
}
