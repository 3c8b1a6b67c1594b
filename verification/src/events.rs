//! Domain events emitted over the run lifecycle.
//!
//! Times are nanoseconds since the Unix epoch.

use vstd::prelude::*;

use crate::run::{FailureReason, RunId};
use crate::stats::{LatencyStats, ThroughputSample};

verus! {

/// Lifecycle event for a benchmark run.
#[derive(Debug, Clone, Copy, PartialEq, Eq, Structural)]
pub enum RunEvent {
    /// A run was accepted and started.
    Started {
        /// Run id.
        id: RunId,
        /// Total round-trips planned.
        total: u64,
        /// Timestamp.
        at: i128,
    },
    /// Incremental progress (emitted as connections finish).
    Progress {
        /// Run id.
        id: RunId,
        /// Round-trips completed so far.
        completed: u64,
        /// Total round-trips planned.
        total: u64,
        /// Timestamp.
        at: i128,
    },
    /// The run finished successfully.
    Completed {
        /// Run id.
        id: RunId,
        /// Final latency distribution.
        stats: LatencyStats,
        /// Sustained throughput measurements.
        throughput: ThroughputSample,
        /// Timestamp.
        at: i128,
    },
    /// The run terminated with a failure.
    Failed {
        /// Run id.
        id: RunId,
        /// Why it failed.
        reason: FailureReason,
        /// Timestamp.
        at: i128,
    },
}

/// The run an event belongs to.
pub open spec fn event_run_id(event: RunEvent) -> RunId {
    match event {
        RunEvent::Started { id, .. } => id,
        RunEvent::Progress { id, .. } => id,
        RunEvent::Completed { id, .. } => id,
        RunEvent::Failed { id, .. } => id,
    }
}

/// The stable discriminant string of an event.
pub open spec fn event_kind(event: RunEvent) -> Seq<char> {
    match event {
        RunEvent::Started { .. } => "started"@,
        RunEvent::Progress { .. } => "progress"@,
        RunEvent::Completed { .. } => "completed"@,
        RunEvent::Failed { .. } => "failed"@,
    }
}

/// An event flattened into one record: the fields an event kind does not
/// carry are `None`.
#[derive(Debug, Clone, Copy, PartialEq, Eq, Structural)]
pub struct RunEventFields {
    /// Run id.
    pub id: RunId,
    /// Total round-trips planned (started and progress events).
    pub total: Option<u64>,
    /// Round-trips completed so far (progress events).
    pub completed: Option<u64>,
    /// Final latency distribution (completed events).
    pub stats: Option<LatencyStats>,
    /// Throughput measurements (completed events).
    pub throughput: Option<ThroughputSample>,
    /// Why the run failed (failed events).
    pub failure_reason: Option<FailureReason>,
    /// Timestamp.
    pub at: i128,
}

/// The flattened record of an event.
pub open spec fn event_fields(event: RunEvent) -> RunEventFields {
    match event {
        RunEvent::Started { id, total, at } => RunEventFields {
            id,
            total: Some(total),
            completed: None,
            stats: None,
            throughput: None,
            failure_reason: None,
            at,
        },
        RunEvent::Progress { id, completed, total, at } => RunEventFields {
            id,
            total: Some(total),
            completed: Some(completed),
            stats: None,
            throughput: None,
            failure_reason: None,
            at,
        },
        RunEvent::Completed { id, stats, throughput, at } => RunEventFields {
            id,
            total: None,
            completed: None,
            stats: Some(stats),
            throughput: Some(throughput),
            failure_reason: None,
            at,
        },
        RunEvent::Failed { id, reason, at } => RunEventFields {
            id,
            total: None,
            completed: None,
            stats: None,
            throughput: None,
            failure_reason: Some(reason),
            at,
        },
    }
}

/// The flattened record of an event carries every field of that event, and
/// only those: the id and time always; the planned total for started and
/// progress events; the completed count for progress events; the statistics
/// and throughput for completed events; the reason for failed events.
pub proof fn lemma_fields_carry_the_event(event: RunEvent)
    ensures
        ({
            let f = event_fields(event);
            match event {
                RunEvent::Started { id, total, at } => f.id == id && f.at == at && f.total == Some(
                    total,
                ) && f.completed is None && f.stats is None && f.throughput is None
                    && f.failure_reason is None,
                RunEvent::Progress { id, completed, total, at } => f.id == id && f.at == at
                    && f.total == Some(total) && f.completed == Some(completed) && f.stats is None
                    && f.throughput is None && f.failure_reason is None,
                RunEvent::Completed { id, stats, throughput, at } => f.id == id && f.at == at
                    && f.total is None && f.completed is None && f.stats == Some(stats)
                    && f.throughput == Some(throughput) && f.failure_reason is None,
                RunEvent::Failed { id, reason, at } => f.id == id && f.at == at && f.total is None
                    && f.completed is None && f.stats is None && f.throughput is None
                    && f.failure_reason == Some(reason),
            }
        }),
{
}

impl RunEvent {
    /// Flatten this event into one record of optional fields.
    pub fn fields(&self) -> (r: RunEventFields)
        ensures
            r == event_fields(*self),
    {
        let base = RunEventFields {
            id: self.id(),
            total: None,
            completed: None,
            stats: None,
            throughput: None,
            failure_reason: None,
            at: 0,
        };
        match *self {
            RunEvent::Started { total, at, .. } => RunEventFields { total: Some(total), at, ..base },
            RunEvent::Progress { completed, total, at, .. } => RunEventFields {
                total: Some(total),
                completed: Some(completed),
                at,
                ..base
            },
            RunEvent::Completed { stats, throughput, at, .. } => RunEventFields {
                stats: Some(stats),
                throughput: Some(throughput),
                at,
                ..base
            },
            RunEvent::Failed { reason, at, .. } => RunEventFields {
                failure_reason: Some(reason),
                at,
                ..base
            },
        }
    }

    /// The run this event belongs to.
    pub fn id(&self) -> (r: RunId)
        ensures
            r == event_run_id(*self),
    {
        match self {
            RunEvent::Started { id, .. }
            | RunEvent::Progress { id, .. }
            | RunEvent::Completed { id, .. }
            | RunEvent::Failed { id, .. } => *id,
        }
    }

    /// A stable discriminant string.
    pub fn kind(&self) -> (r: &'static str)
        ensures
            r@ == event_kind(*self),
    {
        match self {
            RunEvent::Started { .. } => "started",
            RunEvent::Progress { .. } => "progress",
            RunEvent::Completed { .. } => "completed",
            RunEvent::Failed { .. } => "failed",
        }
    }
}

} // verus!
