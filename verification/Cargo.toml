[package]
name = "api_gateway"
version = "0.1.0"
edition = "2021"
publish = false

[dependencies]
dashmap = "=6.2.1"
chrono = { version = "=0.4.45", features = ["serde"] }
tokio = { version = "=1.54.1", features = ["sync", "macros", "rt-multi-thread", "net", "time"] }
axum = { version = "=0.8.9", features = ["ws"] }
redis = "=0.27.6"
serde = { version = "=1.0.229", features = ["derive"] }
serde_json = "=1.0.154"
uuid = { version = "=1.29.1", features = ["v4", "serde"] }
validator = { version = "=0.18.1", features = ["derive"] }
bs58 = "=0.5.1"
base64 = "=0.22.1"
tracing = "=0.1.44"
tracing-subscriber = { version = "=0.3.23", features = ["env-filter"] }
dotenvy = "=0.15.7"
anyhow = "=1.0.104"
