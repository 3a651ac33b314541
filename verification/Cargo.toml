[package]
name = "distributed_runtime"
version = "0.1.0"
edition = "2021"
publish = false

[dependencies]
anyhow = "1"
figment = { version = "0.10", features = ["env"] }
prometheus = { version = "0.13", default-features = false }
tokio = { version = "1", features = ["rt", "sync"] }
tokio-util = "0.7"
tracing = "0.1"
