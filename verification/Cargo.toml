[package]
name = "turn_lifecycle"
version = "0.1.0"
edition = "2021"
publish = false

[dependencies]
indexmap = "2"
rmcp = { version = "*", default-features = false }
serde = { version = "1", features = ["derive"] }
serde_json = "1"
tokio = { version = "1", features = ["io-util", "process", "rt", "sync", "time"] }
tokio-util = { version = "0.7", features = ["rt"] }
