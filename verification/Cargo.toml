[package]
name = "balancebridge"
version = "0.1.0"
edition = "2021"
publish = false

[dependencies]
bitcoin = "0.32"
serde_json = "1"
qrcode = "0.14"
serde = { version = "1", features = ["derive"] }
hex = "0.4"
tokio = { version = "1", features = ["full"] }
electrum-client = "0.21"
nostr-sdk = "0.44"
anyhow = "1"
axum = "0.8"
rustls = "0.23"
