[package]
name = "sendme_session"
version = "0.1.0"
edition = "2021"
publish = false

[dependencies]
anyhow = "1"
serde_json = { version = "1", features = ["preserve_order"] }
tokio = { version = "1", features = ["io-util", "sync", "rt"] }
tracing = "0.1"
