//! Runtime configuration of the node: the `serve` and `bench` subcommands.

use vstd::prelude::*;

verus! {

/// Transport backend used to drive round-trips.
#[derive(Debug, Clone, Copy, PartialEq, Eq, Structural)]
pub enum Transport {
    /// In-process simulator (no network); deterministic, always available.
    Loopback,
    /// Real QUIC.
    Quic,
}

impl Default for Transport {
    fn default() -> (r: Self)
        ensures
            r == Transport::Loopback,
    {
        Transport::Loopback
    }
}

/// The parsed command line.
#[derive(Debug, Clone)]
pub struct Cli {
    /// Emit logs as JSON.
    pub log_json: bool,
    /// Subcommand to run.
    pub command: Command,
}

/// Top-level subcommands.
#[derive(Debug, Clone)]
pub enum Command {
    /// Serve the GraphQL API (HTTP + WebSocket subscriptions).
    Serve(ServeArgs),
    /// Run a benchmark from the command line and print a latency report.
    Bench(BenchArgs),
}

/// Arguments for the `serve` subcommand.
#[derive(Debug, Clone)]
pub struct ServeArgs {
    /// Interface to bind (host name or IP).
    pub host: String,
    /// TCP port to bind.
    pub port: u16,
    /// Transport used for benchmarks started over the API.
    pub transport: Transport,
}

impl Default for ServeArgs {
    fn default() -> (r: Self)
        ensures
            r.host@ == "127.0.0.1"@,
            r.port == 8080,
            r.transport == Transport::Loopback,
    {
        Self { host: String::from_str("127.0.0.1"), port: 8080, transport: Transport::Loopback }
    }
}

/// Arguments for the `bench` subcommand.
#[derive(Debug, Clone)]
pub struct BenchArgs {
    /// Target QUIC echo server as `host:port` (ignored by loopback).
    pub target: String,
    /// Number of concurrent connections.
    pub connections: u32,
    /// Round-trips per connection.
    pub requests: u64,
    /// Payload bytes per request.
    pub payload: u32,
    /// Transport backend.
    pub transport: Transport,
    /// (quic) Spawn a local echo server and benchmark against it.
    pub spawn_echo: bool,
    /// (loopback) Simulated per-round-trip delay in microseconds.
    pub sim_delay_us: u64,
}

impl Default for BenchArgs {
    fn default() -> (r: Self)
        ensures
            r.target@ == "127.0.0.1:0"@,
            r.connections == 1,
            r.requests == 1000,
            r.payload == 1232,
            r.transport == Transport::Loopback,
            r.spawn_echo == false,
            r.sim_delay_us == 0,
    {
        Self {
            target: String::from_str("127.0.0.1:0"),
            connections: 1,
            requests: 1000,
            payload: 1232,
            transport: Transport::Loopback,
            spawn_echo: false,
            sim_delay_us: 0,
        }
    }
}

} // verus!
