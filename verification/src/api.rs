//! The validation behind the GraphQL surface.

use vstd::prelude::*;

use crate::errors::InvalidParam;
use crate::params::{BenchParams, ConnectionCount, PayloadSize, RequestCount, TargetAddr};

verus! {

/// Parameters for starting a benchmark run, as they arrive on the wire.
#[derive(Debug, Clone)]
pub struct BenchParamsInput {
    /// Target QUIC echo server as `host:port`.
    pub target: String,
    /// Number of concurrent connections (>= 1).
    pub connections: u32,
    /// Request/response round-trips per connection (>= 1).
    pub requests_per_connection: u64,
    /// Payload size in bytes (1..=1048576).
    pub payload_bytes: u32,
}

/// The first parameter a request violates, checked in the order connections,
/// requests per connection, payload size.
pub open spec fn first_invalid(connections: u32, requests: u64, payload: u32) -> Option<InvalidParam> {
    if connections == 0 {
        Some(InvalidParam::ZeroConnections)
    } else if requests == 0 {
        Some(InvalidParam::ZeroRequests)
    } else if !(1 <= payload <= 1048576) {
        Some(InvalidParam::PayloadSize(payload))
    } else {
        None
    }
}

impl BenchParamsInput {
    /// Validate the counts and the payload size of this input and assemble the
    /// parameters for `target` (the parsed form of `self.target`).
    pub fn to_params(&self, target: TargetAddr) -> (r: Result<BenchParams, InvalidParam>)
        ensures
            r is Ok <==> (self.connections != 0 && self.requests_per_connection != 0 && 1
                <= self.payload_bytes <= PayloadSize::MAX),
            r is Err <==> first_invalid(
                self.connections,
                self.requests_per_connection,
                self.payload_bytes,
            ) is Some,
            r is Err ==> Some(r->Err_0) == first_invalid(
                self.connections,
                self.requests_per_connection,
                self.payload_bytes,
            ),
            r is Ok ==> {
                let p = r->Ok_0;
                &&& p.target == target
                &&& p.connections@ == self.connections
                &&& p.requests_per_connection@ == self.requests_per_connection
                &&& p.payload@ == self.payload_bytes
            },
    {
        let connections = match ConnectionCount::new(self.connections) {
            Ok(c) => c,
            Err(e) => return Err(e),
        };
        let requests = match RequestCount::new(self.requests_per_connection) {
            Ok(r) => r,
            Err(e) => return Err(e),
        };
        let payload = match PayloadSize::new(self.payload_bytes) {
            Ok(p) => p,
            Err(e) => return Err(e),
        };
        Ok(BenchParams::new(target, connections, requests, payload))
    }
}

/// An input is accepted exactly when every parameter constructor accepts its
/// value: a non-zero connection count, a non-zero request count and a payload
/// size within `PayloadSize::MIN..=PayloadSize::MAX`.
pub proof fn lemma_input_accepted_exactly_when_valid(connections: u32, requests: u64, payload: u32)
    ensures
        first_invalid(connections, requests, payload) is None <==> (connections != 0 && requests
            != 0 && PayloadSize::MIN <= payload <= PayloadSize::MAX),
        connections == 0 ==> first_invalid(connections, requests, payload) == Some(
            InvalidParam::ZeroConnections,
        ),
{
}

/// The number of runs a `runs` query lists: the requested limit clamped to
/// `1..=200`.
pub fn runs_limit(limit: i32) -> (r: usize)
    ensures
        r == if limit < 1 {
            1
        } else if limit > 200 {
            200
        } else {
            limit as int
        },
{
    if limit < 1 {
        1
    } else if limit > 200 {
        200
    } else {
        limit as usize
    }
}

} // verus!
