//! QuicForge: the verified core of a QUIC round-trip latency lab.
//!
//! The library holds the validated benchmark parameters, the run lifecycle,
//! the latency aggregation over HDR histograms, the decision logic of the
//! benchmark engine and of connection retries, and the in-memory run store.
//! Everything that performs I/O (QUIC sockets, HTTP, timers) lives outside.

pub mod errors;
pub mod params;
pub mod histo;
pub mod stats;
pub mod run;
pub mod retry;
pub mod events;
pub mod time;
pub mod engine;
pub mod repo;
pub mod api;
pub mod config;
pub mod sim;
pub mod clock;
pub mod echo;
