[package]
name = "signal_relay"
version = "0.1.0"
edition = "2021"
publish = false

[dependencies]
axum = { version = "0.6", default-features = false, features = ["ws", "http1", "tokio"] }
futures = "0.3"
tokio = { version = "1", features = ["sync", "rt-multi-thread", "macros"] }
tokio-stream = "0.1"
