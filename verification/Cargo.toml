[package]
name = "chat_core"
version = "0.1.0"
edition = "2021"
publish = false

[dependencies]
tokio = { version = "*", features = ["sync", "rt-multi-thread", "macros", "net", "signal", "io-util"] }
anyhow = "*"
serde = { version = "*", features = ["derive"] }
serde_json = "*"
