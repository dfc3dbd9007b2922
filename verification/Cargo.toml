[package]
name = "vehicle_nn_core"
version = "0.1.0"
edition = "2021"
publish = false

[dependencies]
serde_json = "1"
serde = { version = "1", features = ["derive"] }
tokio = { version = "1", features = ["sync", "rt-multi-thread", "macros", "time"] }
dashmap = "*"
chrono = "*"
parking_lot = "*"
thiserror = "*"
tracing = "*"
tracing-subscriber = "*"
anyhow = "1"
