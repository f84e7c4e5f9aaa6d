[package]
name = "ntfy_listener"
version = "0.1.0"
edition = "2021"
publish = false

[dependencies]
serde_json = "*"
reqwest = { version = "*", default-features = false, features = ["stream"] }
tokio = { version = "*", features = ["macros", "rt", "time", "sync", "io-util"] }
tokio-stream = { version = "*", features = ["io-util"] }
tokio-util = { version = "*", features = ["io"] }
futures = "*"
async-channel = "*"
