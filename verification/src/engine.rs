//! The decisions of the benchmark engine.
//!
//! A run drives one worker per connection. Each worker connects (retrying
//! under a budget), issues its share of round-trips and records each latency
//! into its own histogram. The run then merges the workers' histograms and
//! concludes with a summary and a lifecycle event. The waiting (connecting,
//! sending, timing, spawning) is done by the caller, which feeds each outcome
//! back into the state machines here.

use std::time::Duration;

use vstd::multiset::Multiset;
use vstd::prelude::*;

use crate::errors::PortError;
use crate::events::RunEvent;
use crate::histo::{
    histogram_bounds, histogram_samples, latency_bounds, merge_into, new_histogram,
    record_latency, recorded_one, reported_len, stats_from_histogram, summarizes, LatencyHistogram,
};
use crate::params::BenchParams;
use crate::retry::{allowed_attempts, RetryBudget, RetryStep};
use crate::run::{FailureReason, RunId, RunStatus, RunSummary};
use crate::stats::{QuantileReading, ThroughputSample};
use crate::time::{duration_from_secs, from_secs};

verus! {

/// Tunables for the benchmark engine.
#[derive(Debug, Clone, Copy)]
pub struct EngineConfig {
    /// Maximum time to establish a QUIC connection.
    pub connect_timeout: Duration,
    /// Maximum time for a single request/response round-trip.
    pub request_timeout: Duration,
    /// How many times to attempt connection establishment.
    pub connect_retries: u32,
}

impl Default for EngineConfig {
    fn default() -> (r: Self)
        ensures
            r.connect_timeout == duration_from_secs(5),
            r.request_timeout == duration_from_secs(2),
            r.connect_retries == 3,
    {
        Self { connect_timeout: from_secs(5), request_timeout: from_secs(2), connect_retries: 3 }
    }
}

/// The attempts a worker gets to establish its connection: the configured
/// retries, but at least one.
pub open spec fn connect_attempts(config: EngineConfig) -> u32 {
    if config.connect_retries == 0 {
        1
    } else {
        config.connect_retries
    }
}

/// A worker gets as many connection attempts as configured, and at least one:
/// the larger of the configured retries and 1, never capped.
pub proof fn lemma_connect_attempts_are_configured(config: EngineConfig)
    ensures
        connect_attempts(config) >= 1,
        connect_attempts(config) >= config.connect_retries,
        connect_attempts(config) == config.connect_retries || connect_attempts(config) == 1,
{
}

/// The failure a run reports when a connection cannot be established.
pub open spec fn connect_failure(e: PortError) -> FailureReason {
    if e is Timeout {
        FailureReason::ConnectTimeout
    } else {
        FailureReason::ConnectionLost
    }
}

/// The failure a run reports when a connection cannot be established after
/// the error `e`: a timeout, or a lost connection for every other error.
pub fn connect_failure_reason(e: &PortError) -> (r: FailureReason)
    ensures
        r == connect_failure(*e),
{
    match e {
        PortError::Timeout => FailureReason::ConnectTimeout,
        _ => FailureReason::ConnectionLost,
    }
}

/// Where a connection worker stands.
#[derive(Debug, Clone, Copy, PartialEq, Eq, Structural)]
pub enum WorkerPhase {
    /// Establishing the connection.
    Connecting,
    /// Connected, with round-trips left to issue.
    Connected,
    /// Every round-trip succeeded.
    Finished,
    /// Gave up.
    Aborted,
}

/// What a connection worker asks its driver to do next.
#[derive(Debug, Clone, Copy, PartialEq, Eq, Structural)]
pub enum WorkerAction {
    /// Open the connection. `attempt` is the zero-based attempt index; from
    /// the second attempt on, wait the retry delay for `attempt` first.
    Connect { attempt: u32 },
    /// Issue the next round-trip on the open connection, timed.
    RoundTrip,
    /// Every round-trip is done: publish progress, close the connection and
    /// hand in the histogram.
    Finish,
    /// Give up with `reason`; close the connection first when `close` is set.
    Abort { reason: FailureReason, close: bool },
}

/// The state machine of one connection's share of a run.
pub struct ConnectionWorker {
    retry: RetryBudget,
    phase: WorkerPhase,
    planned: u64,
    done: u64,
    hist: LatencyHistogram,
}

impl ConnectionWorker {
    /// Well-formedness of a worker.
    pub closed spec fn wf(&self) -> bool {
        &&& self.retry.wf()
        &&& self.planned >= 1
        &&& self.done <= self.planned
        &&& histogram_samples(self.hist).len() == self.done
        &&& histogram_bounds(self.hist) == latency_bounds()
        &&& self.phase is Connecting ==> self.done == 0 && self.retry.failures() < allowed_attempts(
            self.retry.max_attempts(),
        )
        &&& self.phase is Connected ==> self.done < self.planned
        &&& self.phase is Finished ==> self.done == self.planned
    }

    /// Where the worker stands.
    pub closed spec fn phase(&self) -> WorkerPhase {
        self.phase
    }

    /// Round-trips this worker issues when all succeed.
    pub closed spec fn planned(&self) -> u64 {
        self.planned
    }

    /// Round-trips that succeeded so far.
    pub closed spec fn done(&self) -> u64 {
        self.done
    }

    /// The latencies recorded so far.
    pub closed spec fn samples(&self) -> Multiset<u64> {
        histogram_samples(self.hist)
    }

    /// The connection attempts' budget.
    pub closed spec fn retry(&self) -> RetryBudget {
        self.retry
    }

    /// A worker for one connection of a run with `params`, about to make its
    /// first connection attempt.
    pub fn new(config: &EngineConfig, params: &BenchParams) -> (r: Self)
        ensures
            r.wf(),
            r.phase() is Connecting,
            r.planned() == params.requests_per_connection@,
            r.done() == 0,
            r.retry().max_attempts() == connect_attempts(*config),
            config.connect_retries >= 1 ==> r.retry().max_attempts() == config.connect_retries,
            config.connect_retries == 0 ==> r.retry().max_attempts() == 1,
            r.retry().failures() == 0,
    {
        let max_attempts = if config.connect_retries == 0 {
            1
        } else {
            config.connect_retries
        };
        ConnectionWorker {
            retry: RetryBudget::new(max_attempts),
            phase: WorkerPhase::Connecting,
            planned: params.requests_per_connection.get(),
            done: 0,
            hist: new_histogram(),
        }
    }

    /// Feed in the outcome of a connection attempt.
    ///
    /// A success starts the round-trips. A failure is retried while the budget
    /// allows and the error is retryable; otherwise the worker aborts with
    /// the reason `connect_failure` gives.
    pub fn on_connect(&mut self, result: Result<(), PortError>) -> (r: WorkerAction)
        requires
            old(self).wf(),
            old(self).phase() is Connecting,
        ensures
            final(self).wf(),
            final(self).planned() == old(self).planned(),
            final(self).done() == 0,
            result is Ok ==> r is RoundTrip && final(self).phase() is Connected
                && final(self).retry() == old(self).retry(),
            result is Err ==> {
                let e = result->Err_0;
                let failures = old(self).retry().failures() + 1;
                &&& final(self).retry().failures() == failures
                &&& final(self).retry().max_attempts() == old(self).retry().max_attempts()
                &&& if failures >= old(self).retry().max_attempts() || !e.retryable() {
                    r == (WorkerAction::Abort { reason: connect_failure(e), close: false })
                        && final(self).phase() is Aborted
                } else {
                    r == (WorkerAction::Connect { attempt: failures as u32 })
                        && final(self).phase() is Connecting
                }
            },
    {
        match result {
            Ok(()) => {
                self.phase = WorkerPhase::Connected;
                WorkerAction::RoundTrip
            },
            Err(e) => {
                let step = self.retry.after_failure(e.is_retryable());
                match step {
                    RetryStep::Retry { attempt } => WorkerAction::Connect { attempt },
                    RetryStep::GiveUp => {
                        self.phase = WorkerPhase::Aborted;
                        WorkerAction::Abort { reason: connect_failure_reason(&e), close: false }
                    },
                }
            },
        }
    }

    /// Feed in the outcome of a round-trip: its latency in nanoseconds, or
    /// `None` when it failed or timed out.
    ///
    /// A latency is recorded; after the last planned round-trip the worker
    /// finishes. A failed round-trip aborts the worker with an I/O failure.
    pub fn on_round_trip(&mut self, latency_ns: Option<u64>) -> (r: WorkerAction)
        requires
            old(self).wf(),
            old(self).phase() is Connected,
        ensures
            final(self).wf(),
            final(self).planned() == old(self).planned(),
            latency_ns is None ==> r == (WorkerAction::Abort { reason: FailureReason::Io, close: true })
                && final(self).phase() is Aborted && final(self).done() == old(self).done()
                && final(self).samples() == old(self).samples(),
            latency_ns is Some ==> {
                let ns = latency_ns->0;
                &&& final(self).done() == old(self).done() + 1
                &&& recorded_one(old(self).samples(), final(self).samples(), ns, latency_bounds())
                &&& if final(self).done() == final(self).planned() {
                    r is Finish && final(self).phase() is Finished
                } else {
                    r is RoundTrip && final(self).phase() is Connected
                }
            },
    {
        match latency_ns {
            None => {
                self.phase = WorkerPhase::Aborted;
                WorkerAction::Abort { reason: FailureReason::Io, close: true }
            },
            Some(ns) => {
                record_latency(&mut self.hist, ns);
                self.done = self.done + 1;
                if self.done == self.planned {
                    self.phase = WorkerPhase::Finished;
                    WorkerAction::Finish
                } else {
                    WorkerAction::RoundTrip
                }
            },
        }
    }

    /// The histogram of a worker that finished or gave up: one sample per
    /// successful round-trip (every planned one, for a finished worker).
    pub fn into_histogram(self) -> (h: LatencyHistogram)
        requires
            self.wf(),
            self.phase() is Finished || self.phase() is Aborted,
        ensures
            histogram_samples(h) == self.samples(),
            histogram_samples(h).len() == self.done(),
            self.phase() is Finished ==> histogram_samples(h).len() == self.planned(),
            histogram_bounds(h) == latency_bounds(),
    {
        self.hist
    }
}

/// One worker per connection of a run with `params`, each about to make its
/// first connection attempt.
pub fn connection_workers(config: &EngineConfig, params: &BenchParams) -> (ws: Vec<ConnectionWorker>)
    ensures
        ws@.len() == params.connections@,
        forall|i: int|
            0 <= i < ws@.len() ==> {
                let w = #[trigger] ws@[i];
                &&& w.wf()
                &&& w.phase() is Connecting
                &&& w.planned() == params.requests_per_connection@
                &&& w.done() == 0
                &&& w.retry().max_attempts() == connect_attempts(*config)
                &&& w.retry().failures() == 0
            },
        forall|i: int|
            0 <= i < ws@.len() && config.connect_retries >= 1 ==> (#[trigger] ws@[i]).retry().max_attempts()
                == config.connect_retries,
{
    let n = params.connections.get();
    let mut ws: Vec<ConnectionWorker> = Vec::new();
    let mut k: u32 = 0;
    while k < n
        invariant
            k <= n,
            n == params.connections@,
            ws@.len() == k,
            forall|i: int|
                0 <= i < ws@.len() ==> {
                    let w = #[trigger] ws@[i];
                    &&& w.wf()
                    &&& w.phase() is Connecting
                    &&& w.planned() == params.requests_per_connection@
                    &&& w.done() == 0
                    &&& w.retry().max_attempts() == connect_attempts(*config)
                    &&& w.retry().failures() == 0
                },
        decreases n - k,
    {
        ws.push(ConnectionWorker::new(config, params));
        k = k + 1;
    }
    ws
}

/// How one connection worker ended.
pub enum WorkerOutcome {
    /// All round-trips succeeded; the worker's latency histogram.
    Finished(LatencyHistogram),
    /// The worker gave up; the latencies it recorded before that.
    Failed(FailureReason, LatencyHistogram),
    /// The worker's task died before reporting.
    Crashed,
}

/// The failure an outcome contributes to its run, if any.
pub open spec fn outcome_failure(outcome: WorkerOutcome) -> Option<FailureReason> {
    match outcome {
        WorkerOutcome::Finished(_) => None,
        WorkerOutcome::Failed(reason, _) => Some(reason),
        WorkerOutcome::Crashed => Some(FailureReason::Internal),
    }
}

/// The samples of a histogram handed in, when it has the latency bounds (a
/// histogram of other bounds is not merged).
pub open spec fn mergeable_samples(h: LatencyHistogram) -> Multiset<u64> {
    if histogram_bounds(h) == latency_bounds() {
        histogram_samples(h)
    } else {
        Multiset::empty()
    }
}

/// The samples an outcome contributes to its run.
pub open spec fn outcome_samples(outcome: WorkerOutcome) -> Multiset<u64> {
    match outcome {
        WorkerOutcome::Finished(h) => mergeable_samples(h),
        WorkerOutcome::Failed(_, h) => mergeable_samples(h),
        _ => Multiset::empty(),
    }
}

/// All samples of a sequence of outcomes, merged.
pub open spec fn merged_samples(outcomes: Seq<WorkerOutcome>) -> Multiset<u64>
    decreases outcomes.len(),
{
    if outcomes.len() == 0 {
        Multiset::empty()
    } else {
        merged_samples(outcomes.drop_last()).add(outcome_samples(outcomes.last()))
    }
}

/// The failure of the first outcome that failed, in order.
pub open spec fn first_failure(outcomes: Seq<WorkerOutcome>) -> Option<FailureReason>
    decreases outcomes.len(),
{
    if outcomes.len() == 0 {
        None
    } else {
        match first_failure(outcomes.drop_last()) {
            Some(reason) => Some(reason),
            None => outcome_failure(outcomes.last()),
        }
    }
}

/// The merged result of a run's workers.
pub struct RunAggregate {
    merged: LatencyHistogram,
    first_err: Option<FailureReason>,
}

impl RunAggregate {
    /// Well-formedness: the merged histogram has the latency bounds.
    pub closed spec fn wf(&self) -> bool {
        histogram_bounds(self.merged) == latency_bounds()
    }

    /// Every latency the workers recorded.
    pub closed spec fn samples(&self) -> Multiset<u64> {
        histogram_samples(self.merged)
    }

    /// The failure of the first worker that failed.
    pub closed spec fn first_err(&self) -> Option<FailureReason> {
        self.first_err
    }

    /// Merge the outcomes of a run's workers, in order: every histogram handed
    /// in (by finished and by failed workers) that has the latency bounds is
    /// added, and the first failure is kept.
    pub fn collect(outcomes: Vec<WorkerOutcome>) -> (r: Self)
        ensures
            r.wf(),
            r.samples() == merged_samples(outcomes@),
            r.first_err() == first_failure(outcomes@),
    {
        let mut merged = new_histogram();
        let mut first_err: Option<FailureReason> = None;
        let mut i: usize = 0;
        while i < outcomes.len()
            invariant
                i <= outcomes.len(),
                histogram_bounds(merged) == latency_bounds(),
                histogram_samples(merged) == merged_samples(outcomes@.take(i as int)),
                first_err == first_failure(outcomes@.take(i as int)),
            decreases outcomes.len() - i,
        {
            proof {
                assert(outcomes@.take(i as int + 1).drop_last() == outcomes@.take(i as int));
                assert(outcomes@.take(i as int + 1).last() == outcomes@[i as int]);
            }
            match &outcomes[i] {
                WorkerOutcome::Finished(h) => {
                    let _ = merge_into(&mut merged, h);
                },
                WorkerOutcome::Failed(reason, h) => {
                    let _ = merge_into(&mut merged, h);
                    if first_err.is_none() {
                        first_err = Some(*reason);
                    }
                },
                WorkerOutcome::Crashed => {
                    if first_err.is_none() {
                        first_err = Some(FailureReason::Internal);
                    }
                },
            }
            proof {
                if outcomes@[i as int] is Crashed {
                    assert(outcome_samples(outcomes@[i as int]) =~= Multiset::empty());
                    assert(histogram_samples(merged) =~= histogram_samples(merged).add(
                        Multiset::empty(),
                    ));
                }
            }
            i = i + 1;
        }
        proof {
            assert(outcomes@.take(outcomes.len() as int) == outcomes@);
        }
        RunAggregate { merged, first_err }
    }

    /// The merged histogram (read it for quantiles and the mean).
    pub fn merged(&self) -> (h: &LatencyHistogram)
        ensures
            histogram_samples(*h) == self.samples(),
            self.wf() ==> histogram_bounds(*h) == latency_bounds(),
    {
        &self.merged
    }

    /// The failure of the first worker that failed.
    pub fn first_error(&self) -> (r: Option<FailureReason>)
        ensures
            r == self.first_err(),
    {
        self.first_err
    }
}

/// The first failure is kept: once a prefix of the outcomes has failed, later
/// outcomes do not change the failure reported.
pub proof fn lemma_first_failure_is_kept(outcomes: Seq<WorkerOutcome>, later: WorkerOutcome)
    requires
        first_failure(outcomes) is Some,
    ensures
        first_failure(outcomes.push(later)) == first_failure(outcomes),
{
    assert(outcomes.push(later).drop_last() =~= outcomes);
}

/// The failure reported is that of the earliest outcome that did not finish,
/// and there is none exactly when every outcome finished.
pub proof fn lemma_first_failure_is_earliest(outcomes: Seq<WorkerOutcome>)
    ensures
        first_failure(outcomes) is None <==> forall|j: int|
            0 <= j < outcomes.len() ==> (#[trigger] outcomes[j]) is Finished,
        first_failure(outcomes) is Some ==> exists|k: int|
            0 <= k < outcomes.len() && !(outcomes[k] is Finished) && (forall|j: int|
                0 <= j < k ==> (#[trigger] outcomes[j]) is Finished) && first_failure(outcomes)
                == outcome_failure(#[trigger] outcomes[k]),
    decreases outcomes.len(),
{
    if outcomes.len() > 0 {
        let prefix = outcomes.drop_last();
        lemma_first_failure_is_earliest(prefix);
        let n = outcomes.len() - 1;
        assert forall|j: int| 0 <= j < prefix.len() implies prefix[j] == outcomes[j] by {}
        if first_failure(prefix) is Some {
            let k = choose|k: int|
                0 <= k < prefix.len() && !(prefix[k] is Finished) && (forall|j: int|
                    0 <= j < k ==> (#[trigger] prefix[j]) is Finished) && first_failure(prefix)
                    == outcome_failure(#[trigger] prefix[k]);
            assert(outcomes[k] == prefix[k]);
            assert(forall|j: int| 0 <= j < k ==> (#[trigger] outcomes[j]) == prefix[j]);
            assert(!(outcomes[k] is Finished));
        } else {
            assert(outcomes.last() == outcomes[n]);
            if !(outcomes[n] is Finished) {
                assert(forall|j: int| 0 <= j < n ==> (#[trigger] outcomes[j]) == prefix[j]);
                assert(first_failure(outcomes) == outcome_failure(outcomes[n]));
            } else {
                assert forall|j: int| 0 <= j < outcomes.len() implies (
                #[trigger] outcomes[j]) is Finished by {
                    if j < n {
                        assert(outcomes[j] == prefix[j]);
                    }
                }
            }
        }
        if forall|j: int| 0 <= j < outcomes.len() ==> (#[trigger] outcomes[j]) is Finished {
            assert(prefix.len() == n);
            assert forall|j: int| 0 <= j < prefix.len() implies (#[trigger] prefix[j]) is Finished by {
                assert(outcomes[j] == prefix[j]);
            }
            assert(outcomes[n] is Finished);
        }
    }
}

/// Merging loses no sample: when every worker finished with `per_worker`
/// samples in a histogram of the latency bounds, the merged distribution
/// holds `outcomes.len() * per_worker`.
pub proof fn lemma_all_finished_merge_exactly(outcomes: Seq<WorkerOutcome>, per_worker: nat)
    requires
        forall|i: int|
            0 <= i < outcomes.len() ==> (#[trigger] outcomes[i]) is Finished && histogram_samples(
                outcomes[i]->Finished_0,
            ).len() == per_worker && histogram_bounds(outcomes[i]->Finished_0) == latency_bounds(),
    ensures
        merged_samples(outcomes).len() == outcomes.len() * per_worker,
        first_failure(outcomes) is None,
    decreases outcomes.len(),
{
    if outcomes.len() > 0 {
        let prefix = outcomes.drop_last();
        assert forall|i: int|
            0 <= i < prefix.len() implies (#[trigger] prefix[i]) is Finished && histogram_samples(
            prefix[i]->Finished_0,
        ).len() == per_worker && histogram_bounds(prefix[i]->Finished_0) == latency_bounds() by {
            assert(prefix[i] == outcomes[i]);
        }
        lemma_all_finished_merge_exactly(prefix, per_worker);
        assert(outcomes.last() == outcomes[outcomes.len() - 1]);
        let n = outcomes.len();
        assert((n - 1) * per_worker + per_worker == n * per_worker) by (nonlinear_arith);
    }
}

/// A run whose every connection finished all its round-trips reports every
/// round-trip: the merged distribution holds `connections * requests` samples,
/// that count is what the statistics report, and no failure is recorded.
pub proof fn lemma_complete_run_counts_every_round_trip(outcomes: Seq<WorkerOutcome>, params: BenchParams)
    requires
        params.total() <= u64::MAX,
        outcomes.len() == params.connections@,
        forall|i: int|
            0 <= i < outcomes.len() ==> (#[trigger] outcomes[i]) is Finished && histogram_samples(
                outcomes[i]->Finished_0,
            ).len() == params.requests_per_connection@ && histogram_bounds(
                outcomes[i]->Finished_0,
            ) == latency_bounds(),
    ensures
        merged_samples(outcomes).len() == params.total(),
        reported_len(merged_samples(outcomes)) == params.total(),
        first_failure(outcomes) is None,
{
    lemma_all_finished_merge_exactly(outcomes, params.requests_per_connection@ as nat);
}

/// The summary and the `Started` event of a run accepted at `started_at`.
pub fn start_run(id: RunId, params: BenchParams, started_at: i128) -> (r: (RunSummary, RunEvent))
    requires
        params.total() <= u64::MAX,
    ensures
        r.0 == (RunSummary {
            id,
            params,
            status: RunStatus::Running { completed: 0 },
            stats: None,
            throughput: None,
            started_at,
            finished_at: None,
        }),
        r.1 == (RunEvent::Started { id, total: params.total() as u64, at: started_at }),
{
    let total = params.total_requests();
    let summary = RunSummary {
        id,
        params,
        status: RunStatus::Running { completed: 0 },
        stats: None,
        throughput: None,
        started_at,
        finished_at: None,
    };
    (summary, RunEvent::Started { id, total, at: started_at })
}

/// Conclude a run from its merged worker outcomes.
///
/// A worker failure fails the run with the first failure, keeping the
/// statistics of every latency recorded; a run without any failure and
/// without samples fails as internal; otherwise the run completes with its
/// latency statistics and its throughput measurements: every recorded
/// round-trip, of the payload size, in `elapsed_ns`. `reading` is taken on
/// the merged histogram. The returned event reports the same outcome.
pub fn conclude_run(
    summary: RunSummary,
    agg: &RunAggregate,
    reading: &QuantileReading,
    elapsed_ns: u64,
    finished_at: i128,
) -> (r: (RunSummary, RunEvent))
    requires
        agg.wf(),
        agg.first_err() is None && agg.samples().len() > 0 ==> reported_len(agg.samples())
            * summary.params.payload@ <= u64::MAX,
    ensures
        r.0.id == summary.id,
        r.0.params == summary.params,
        r.0.started_at == summary.started_at,
        r.0.finished_at == Some(finished_at),
        event_matches_summary(r.1, r.0, finished_at),
        match agg.first_err() {
            Some(reason) => {
                &&& r.0.status == (RunStatus::Failed { reason })
                &&& r.0.stats is None <==> agg.samples().len() == 0
                &&& r.0.stats is Some ==> summarizes(r.0.stats->0, agg.samples(), latency_bounds(), *reading)
                &&& r.0.throughput == summary.throughput
            },
            None => if agg.samples().len() == 0 {
                &&& r.0.status == (RunStatus::Failed { reason: FailureReason::Internal })
                &&& r.0.stats == summary.stats
                &&& r.0.throughput == summary.throughput
            } else {
                &&& r.0.status == RunStatus::Completed
                &&& r.0.stats is Some
                &&& summarizes(r.0.stats->0, agg.samples(), latency_bounds(), *reading)
                &&& r.0.throughput == Some(
                    ThroughputSample {
                        requests: reported_len(agg.samples()),
                        bytes: (reported_len(agg.samples()) * summary.params.payload@) as u64,
                        elapsed_ns,
                    },
                )
            },
        },
{
    let id = summary.id;
    let mut summary = summary;
    if let Some(reason) = agg.first_error() {
        summary.status = RunStatus::Failed { reason };
        summary.stats = stats_from_histogram(agg.merged(), reading);
        summary.finished_at = Some(finished_at);
        return (summary, RunEvent::Failed { id, reason, at: finished_at });
    }
    match stats_from_histogram(agg.merged(), reading) {
        None => {
            summary.status = RunStatus::Failed { reason: FailureReason::Internal };
            summary.finished_at = Some(finished_at);
            (summary, RunEvent::Failed { id, reason: FailureReason::Internal, at: finished_at })
        },
        Some(stats) => {
            let payload = summary.params.payload.get() as u64;
            let throughput = ThroughputSample {
                requests: stats.samples,
                bytes: stats.samples * payload,
                elapsed_ns,
            };
            summary.status = RunStatus::Completed;
            summary.stats = Some(stats);
            summary.throughput = Some(throughput);
            summary.finished_at = Some(finished_at);
            (summary, RunEvent::Completed { id, stats, throughput, at: finished_at })
        },
    }
}

/// Whether `event` announces how `summary` ended, at `at`: a failed summary
/// with a `Failed` event of its reason, a completed one with a `Completed`
/// event of its statistics and throughput.
pub open spec fn event_matches_summary(event: RunEvent, summary: RunSummary, at: i128) -> bool {
    match summary.status {
        RunStatus::Failed { reason } => event == (RunEvent::Failed { id: summary.id, reason, at }),
        RunStatus::Completed => summary.stats is Some && summary.throughput is Some && event == (
        RunEvent::Completed {
            id: summary.id,
            stats: summary.stats->0,
            throughput: summary.throughput->0,
            at,
        }),
        _ => false,
    }
}

} // verus!
