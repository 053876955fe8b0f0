[package]
name = "daemon_monitor"
version = "0.1.0"
edition = "2021"
publish = false

[dependencies]
bollard = "0.19"
tokio = { version = "1", features = ["macros", "rt-multi-thread", "time", "signal", "sync"] }
tokio-util = "0.7"
serde = { version = "1", features = ["derive"] }
serde_json = "1"
thiserror = "2"
tracing = "0.1"
