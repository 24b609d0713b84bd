[package]
name = "actflow_server"
version = "0.1.0"
edition = "2021"
publish = false

[dependencies]
actflow = "=0.1.6"
anyhow = "1"
chrono = { version = "=0.4.45", default-features = false, features = ["clock", "std"] }
log = "0.4"
serde = { version = "1", features = ["derive"] }
serde_json = "=1.0.151"
serde_yaml = "0.9"
thiserror = "2"
tokio = { version = "1", features = ["rt-multi-thread", "sync", "signal", "macros", "time"] }
tokio-stream = "0.1"
