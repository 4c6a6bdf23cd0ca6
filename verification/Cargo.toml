[package]
name = "orasrs_agent"
version = "0.1.0"
edition = "2021"
publish = false

[dependencies]
blake3 = "*"
uuid = { version = "*", features = ["v4"] }
serde = { version = "*", features = ["derive"] }
serde_json = "*"
thiserror = "*"
chrono = "*"
log = "*"
env_logger = "*"
tokio = { version = "*", features = ["rt", "macros", "sync", "time"] }
ring = "*"
