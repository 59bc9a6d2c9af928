[package]
name = "crabmic"
version = "0.1.0"
edition = "2021"
publish = false

[dependencies]
bytes = "1"
tokio = { version = "1", features = ["rt", "rt-multi-thread", "sync", "macros", "io-util", "signal"] }
tokio-util = "0.7"
quinn = "0.11"
cpal = "0.15"
opus = "0.3"
ring = "0.17"
tracing = "0.1"
