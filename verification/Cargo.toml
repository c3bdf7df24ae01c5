[package]
name = "dev_proxy"
version = "0.1.0"
edition = "2021"
publish = false

[dependencies]
tokio = { version = "1", features = ["full"] }
serde = { version = "1", features = ["derive"] }
once_cell = "1"
tracing = "0.1"
tracing-subscriber = "0.3"
tracing-appender = "0.2"
