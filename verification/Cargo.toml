[package]
name = "event_relay"
version = "0.1.0"
edition = "2021"
publish = false

[dependencies]
axum = "*"
log = "*"
rdkafka = "*"
reqwest = { version = "*", default-features = false }
serde = { version = "*", features = ["derive"] }
serde_json = "*"
structured-logger = "*"
tokio = { version = "*", features = ["full"] }
