//! Benchmark parameters: the validated knobs of a latency run.

use vstd::prelude::*;

use crate::errors::InvalidParam;

verus! {

/// The address family and host part of a benchmark target.
#[derive(Debug, Clone, Copy, PartialEq, Eq, Structural)]
pub enum TargetIp {
    /// An IPv4 host, by its address bits in network order.
    V4(u32),
    /// An IPv6 host, by its address bits in network order, flow label and scope id.
    V6 { bits: u128, flowinfo: u32, scope_id: u32 },
}

/// The QUIC endpoint (host and port) that a benchmark drives load against.
#[derive(Debug, Clone, Copy, PartialEq, Eq, Structural)]
pub struct TargetAddr {
    /// Host part.
    pub ip: TargetIp,
    /// UDP port.
    pub port: u16,
}

/// Payload size in bytes for each request (`1..=1 MiB`).
///
/// Defaults to 1232 bytes, Solana's maximum TPU packet size.
#[derive(Debug, Clone, Copy, PartialEq, Eq, PartialOrd, Ord, Hash, Structural)]
pub struct PayloadSize(u32);

impl View for PayloadSize {
    type V = u32;

    closed spec fn view(&self) -> u32 {
        self.0
    }
}

impl PayloadSize {
    /// Smallest accepted payload.
    pub const MIN: u32 = 1;
    /// Largest accepted payload (1 MiB).
    pub const MAX: u32 = 1048576;

    /// Every payload size lies in `MIN..=MAX`.
    #[verifier::type_invariant]
    closed spec fn in_range(self) -> bool {
        1 <= self.0 <= 1048576
    }

    /// Construct a payload size, validating the byte range.
    pub fn new(bytes: u32) -> (r: Result<Self, InvalidParam>)
        ensures
            r is Ok <==> (1 <= bytes && bytes <= 1048576),
            r is Ok ==> r->Ok_0@ == bytes,
            r is Err ==> r->Err_0 == InvalidParam::PayloadSize(bytes),
    {
        if Self::MIN <= bytes && bytes <= Self::MAX {
            Ok(Self(bytes))
        } else {
            Err(InvalidParam::PayloadSize(bytes))
        }
    }

    /// The size in bytes.
    pub fn get(self) -> (r: u32)
        ensures
            r == self@,
            1 <= r <= 1048576,
    {
        proof {
            use_type_invariant(&self);
        }
        self.0
    }
}

impl Default for PayloadSize {
    fn default() -> (r: Self)
        ensures
            r@ == 1232,
    {
        Self(1232)
    }
}

/// Number of concurrent QUIC connections (non-zero).
#[derive(Debug, Clone, Copy, PartialEq, Eq, PartialOrd, Ord, Hash, Structural)]
pub struct ConnectionCount(u32);

impl View for ConnectionCount {
    type V = u32;

    closed spec fn view(&self) -> u32 {
        self.0
    }
}

impl ConnectionCount {
    /// A connection count is never zero.
    #[verifier::type_invariant]
    closed spec fn non_zero(self) -> bool {
        self.0 != 0
    }

    /// Construct a non-zero connection count.
    pub fn new(n: u32) -> (r: Result<Self, InvalidParam>)
        ensures
            r is Ok <==> n != 0,
            r is Ok ==> r->Ok_0@ == n,
            r is Err ==> r->Err_0 == InvalidParam::ZeroConnections,
    {
        if n == 0 {
            Err(InvalidParam::ZeroConnections)
        } else {
            Ok(Self(n))
        }
    }

    /// The count.
    pub fn get(self) -> (r: u32)
        ensures
            r == self@,
            r != 0,
    {
        proof {
            use_type_invariant(&self);
        }
        self.0
    }
}

impl Default for ConnectionCount {
    fn default() -> (r: Self)
        ensures
            r@ == 1,
    {
        Self(1)
    }
}

/// Number of request/response round-trips per connection (non-zero).
#[derive(Debug, Clone, Copy, PartialEq, Eq, PartialOrd, Ord, Hash, Structural)]
pub struct RequestCount(u64);

impl View for RequestCount {
    type V = u64;

    closed spec fn view(&self) -> u64 {
        self.0
    }
}

impl RequestCount {
    /// A request count is never zero.
    #[verifier::type_invariant]
    closed spec fn non_zero(self) -> bool {
        self.0 != 0
    }

    /// Construct a non-zero request count.
    pub fn new(n: u64) -> (r: Result<Self, InvalidParam>)
        ensures
            r is Ok <==> n != 0,
            r is Ok ==> r->Ok_0@ == n,
            r is Err ==> r->Err_0 == InvalidParam::ZeroRequests,
    {
        if n == 0 {
            Err(InvalidParam::ZeroRequests)
        } else {
            Ok(Self(n))
        }
    }

    /// The count.
    pub fn get(self) -> (r: u64)
        ensures
            r == self@,
            r != 0,
    {
        proof {
            use_type_invariant(&self);
        }
        self.0
    }
}

impl Default for RequestCount {
    fn default() -> (r: Self)
        ensures
            r@ == 1000,
    {
        Self(1000)
    }
}

/// The full, validated parameter set for a benchmark run.
#[derive(Debug, Clone, Copy, PartialEq, Eq, Structural)]
pub struct BenchParams {
    /// QUIC server endpoint to drive load against.
    pub target: TargetAddr,
    /// Concurrent connections.
    pub connections: ConnectionCount,
    /// Round-trips per connection.
    pub requests_per_connection: RequestCount,
    /// Bytes per request.
    pub payload: PayloadSize,
}

impl BenchParams {
    /// Total round-trips across all connections, as a mathematical number.
    pub open spec fn total(self) -> int {
        self.connections@ * self.requests_per_connection@
    }

    /// Assemble parameters for a target endpoint.
    pub fn new(
        target: TargetAddr,
        connections: ConnectionCount,
        requests_per_connection: RequestCount,
        payload: PayloadSize,
    ) -> (r: Self)
        ensures
            r.target == target,
            r.connections == connections,
            r.requests_per_connection == requests_per_connection,
            r.payload == payload,
    {
        Self { target, connections, requests_per_connection, payload }
    }

    /// Total round-trips across all connections.
    pub fn total_requests(&self) -> (r: u64)
        requires
            self.total() <= u64::MAX,
        ensures
            r == self.total(),
    {
        self.connections.get() as u64 * self.requests_per_connection.get()
    }
}

} // verus!
