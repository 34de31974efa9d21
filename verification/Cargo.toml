[package]
name = "wallet_loop"
version = "0.1.0"
edition = "2021"
publish = false

[dependencies]
anyhow = "*"
bdk_kyoto = "*"
bdk_wallet = { version = "*", features = ["rusqlite"] }
bitcoin = "*"
rusqlite = "*"
tokio = { version = "*", features = ["full"] }
tracing = "*"
tracing-appender = "*"
tracing-subscriber = "*"
