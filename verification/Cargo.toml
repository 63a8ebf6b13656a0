[package]
name = "signal_relay"
version = "0.1.0"
edition = "2021"
publish = false

[dependencies]
serde_json = "1"
tokio = { version = "1", features = ["sync", "rt-multi-thread", "macros"] }
axum = { version = "0.6", features = ["ws"] }
futures = "0.3"
uuid = { version = "1", features = ["v4"] }
chrono = "0.4"
rand = "0.8"
