[package]
name = "quicforge"
version = "0.1.0"
edition = "2021"
publish = false

[dependencies]
anyhow = "1"
async-graphql = { version = "7", features = ["chrono"] }
async-graphql-axum = "7"
async-trait = "0.1"
axum = "0.8"
chrono = { version = "0.4", features = ["serde"] }
clap = { version = "4", features = ["derive", "env"] }
dotenvy = "0.15"
futures = "0.3"
hdrhistogram = { version = "7", default-features = false }
metrics = "0.24"
metrics-exporter-prometheus = { version = "*", default-features = false }
parking_lot = "0.12"
quinn = "0.11"
rcgen = "0.13"
rustls = { version = "0.23", default-features = false, features = ["ring", "std"] }
serde = { version = "1", features = ["derive"] }
serde_json = "1"
socket2 = "0.5"
thiserror = "2"
tokio = { version = "1", features = ["full"] }
tokio-stream = { version = "0.1", features = ["sync"] }
tower-http = { version = "0.6", features = ["trace"] }
tracing = "0.1"
tracing-subscriber = { version = "0.3", features = ["env-filter", "json"] }
uuid = { version = "1", features = ["v4", "serde"] }
