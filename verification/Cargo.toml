[package]
name = "seat_agent"
version = "0.1.0"
edition = "2021"
publish = false

[dependencies]
serde = { version = "=1.0.229", features = ["derive"] }
serde_json = "=1.0.154"
serde_yaml = "=0.9.34"
thiserror = "=1.0.69"
async-trait = "=0.1.92"
futures = "=0.3.34"
tokio = { version = "=1.54.1", features = ["sync", "time", "rt", "rt-multi-thread", "macros"] }
tokio-stream = "=0.1.19"
reqwest = { version = "=0.12.28", default-features = false, features = ["json", "stream", "rustls-tls"] }
redis = { version = "=0.25.5", features = ["tokio-comp", "connection-manager"] }
tracing = "=0.1.44"
tracing-subscriber = "=0.3.23"
qdrant-client = { version = "=1.20.0", default-features = false, features = ["serde"] }
