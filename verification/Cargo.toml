[package]
name = "avix_core"
version = "0.1.0"
edition = "2021"
publish = false

[dependencies]
uuid = { version = "1", features = ["v4"] }
chrono = { version = "0.4", features = ["serde"] }
tokio = { version = "1", features = ["sync", "net", "io-util", "time", "rt", "macros"] }
serde = { version = "1", features = ["derive"] }
serde_json = "1"
serde_yaml = "0.9"
async-trait = "0.1"
thiserror = "*"
tracing = "0.1"
anyhow = "1"
futures = "0.3"
redb = "*"
axum = { version = "*", features = ["ws"] }
