[package]
name = "tokio-rkyv"
version = "0.1.0"
edition = "2021"
publish = false

[dependencies]
bytes = "1"
futures-core = "0.3"
futures-sink = "0.3"
pin-project = "1"
rkyv = { version = "0.7", features = ["validation"] }
tokio = { version = "1", features = ["io-util"] }
tracing = "0.1"
