[package]
name = "webhook_retry"
version = "0.1.0"
edition = "2021"
publish = false

[dependencies]
time = "*"
serde = { version = "*", features = ["derive"] }
serde_json = "*"
