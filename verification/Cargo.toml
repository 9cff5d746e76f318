[package]
name = "async_listener"
version = "0.1.0"
edition = "2021"
publish = false

[dependencies]
async-stream = "*"
futures = "*"
notify = "*"
tokio = { version = "*", features = ["full"] }
tracing = "*"
