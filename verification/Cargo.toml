[package]
name = "miniredis_server"
version = "0.1.0"
edition = "2021"
publish = false

[dependencies]
mini-redis = "0.4"
bytes = "1"
tokio = { version = "1", features = ["full"] }
tracing = "0.1"
tracing-subscriber = "0.3"
serde = { version = "1", features = ["derive"] }
serde_json = "1"
tokio-tungstenite = "0.24"
futures-util = { version = "0.3", features = ["sink"] }
