[package]
name = "dummy_agones"
version = "0.1.0"
edition = "2021"
publish = false

[dependencies]
axum = "0.6"
axum-yaml = "0.3"
futures = "0.3"
hyper = { version = "0.14", features = ["server", "tcp", "http1", "http2"] }
parking_lot = "0.12"
serde = { version = "1", features = ["derive"] }
tokio = { version = "1", features = ["rt-multi-thread", "macros", "net", "sync", "time"] }
tokio-stream = { version = "0.1", features = ["sync"] }
tracing = "0.1"
