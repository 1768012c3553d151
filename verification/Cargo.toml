[package]
name = "moonlight_ipc"
version = "0.1.0"
edition = "2021"
publish = false

[dependencies]
serde = { version = "=1.0.229", features = ["derive"] }
serde_json = "=1.0.154"
tokio = { version = "=1.54.1", features = ["io-std", "io-util", "process", "rt", "sync"] }
tracing = "=0.1.44"
