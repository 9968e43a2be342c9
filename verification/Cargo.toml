[package]
name = "bottles_server"
version = "0.1.0"
edition = "2021"
publish = false

[dependencies]
futures-core = "0.3"
prost-wkt-types = "0.7"
reqwest = { version = "0.12", default-features = false }
serde_json = "1"
tokio = { version = "1", features = ["macros", "rt-multi-thread", "sync", "time"] }
tokio-stream = "0.1"
tonic = "0.14"
tonic-health = "0.14"
tonic-reflection = "0.14"
tracing = "0.1"
tracing-subscriber = { version = "0.3", features = ["env-filter"] }
uuid = { version = "1", features = ["v4"] }
