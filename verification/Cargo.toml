[package]
name = "subscriptions"
version = "0.1.0"
edition = "2021"
publish = false

[dependencies]
tokio = { version = "1", features = ["sync"] }
axum = { version = "0.8", features = ["ws"] }

[dev-dependencies]
bytes = "1"
