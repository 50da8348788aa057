[package]
name = "webcheck"
version = "0.1.0"
edition = "2021"
publish = false

[dependencies]
askama = "0.12"
axum = "0.7"
chrono = { version = "0.4", features = ["serde"] }
reqwest = "0.12"
serde = { version = "1", features = ["derive"] }
serde_json = "1"
tokio = { version = "1", features = ["full"] }
tower-http = { version = "0.5", features = ["fs"] }
tracing-subscriber = "0.3"
