[package]
name = "send_transaction"
version = "0.1.0"
edition = "2021"
publish = false

[dependencies]
base64 = "=0.21.7"
bincode = "=1.3.3"
bs58 = "=0.4.0"
serde = { version = "=1.0.229", features = ["derive"] }
serde_json = "=1.0.154"
solana-extra-wasm = "=1.18.0"
solana-sdk = "=1.18.0"
