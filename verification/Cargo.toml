[package]
name = "flowpipe"
version = "0.1.0"
edition = "2021"
publish = false

[dependencies]
axum = "=0.8.9"
clickhouse = "=0.15.2"
netflow_parser = "=1.0.6"
prometheus-client = "=0.25.1"
serde = { version = "=1.0.229", features = ["derive"] }
tokio = { version = "=1.53.2", features = ["rt-multi-thread", "net", "macros", "signal"] }
