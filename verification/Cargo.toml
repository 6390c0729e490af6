[package]
name = "microlane"
version = "0.1.0"
edition = "2021"
publish = false

[dependencies]
hickory-proto = { version = "0.24", default-features = false }
failsafe = "1.3"
dashmap = "6"
tokio = { version = "1", features = ["full"] }
tokio-util = { version = "0.7", features = ["rt"] }
axum = "0.7"
serde = { version = "1", features = ["derive"] }
clap = { version = "4", features = ["derive"] }
thiserror = "1"
tracing = "0.1"
tracing-subscriber = "0.3"
