[package]
name = "holochain_core"
version = "0.1.0"
edition = "2021"
publish = false

[dependencies]
base64 = "=0.10.1"
jsonrpc-ws-server = "=14.2.0"
multihash = "=0.8.0"
regex = "1"
rust-base58 = "=0.0.4"
serde = { version = "=1.0.229", features = ["derive"] }
serde_json = "=1.0.154"
wasmi = "=0.9.1"
