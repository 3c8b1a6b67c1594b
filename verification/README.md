# QuicForge (verified core)

QuicForge measures QUIC round-trip latency the way a Solana validator's TPU
ingress sees it: many concurrent connections, small payloads, and a
tail-latency-first view of the results recorded into HDR histograms.

This crate is the library at its centre, written in Verus and proved against
its contracts:

- `params`, `errors`, `stats`, `run`, `events`: validated benchmark parameters,
  run identity and lifecycle, latency statistics and lifecycle events.
- `histo`: latency histograms over the `hdrhistogram` crate (trusted wrappers,
  stated over the multiset of recorded samples).
- `retry`: the attempt budget behind connection retries.
- `engine`: the state machine of one connection worker, the lossless merge of
  the workers' outcomes, and how a run starts and concludes.
- `repo`: the in-memory run store (update in place, lookup, newest-first
  listing) with its laws.
- `api`, `config`, `sim`, `clock`, `echo`: input validation, command-line
  configuration defaults, the loopback connector, the system clock, and the
  echo-length check of a round-trip.

`app/` is the program around it: the async engine driver (Tokio), the QUIC
transport (quinn/rustls), the GraphQL API (async-graphql over axum), the
command line (clap), telemetry, and the floating-point parts (quantiles,
throughput rates, retry back-off).
