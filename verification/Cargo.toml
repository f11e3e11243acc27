[package]
name = "coderunner"
version = "0.1.0"
edition = "2021"
publish = false

[dependencies]
uuid = { version = "=1.29.0", features = ["v4"] }
chrono = "=0.4.45"
tokio = { version = "=1.54.1", features = ["full"] }
async-trait = "=0.1.92"
dashmap = "=6.2.1"
futures = "=0.3.34"
tokio-stream = "=0.1.19"
tracing = "=0.1.44"
anyhow = "=1.0.104"
thiserror = "=2.0.21"
serde = { version = "=1.0.229", features = ["derive"] }
bincode = { version = "=2.0.1", features = ["serde"] }
nix = { version = "=0.30.1", features = ["mount", "sched", "resource", "signal", "process", "fs", "user"] }
zbus = { version = "5", default-features = false, features = ["tokio"] }
async-pidfd = "0.1"
