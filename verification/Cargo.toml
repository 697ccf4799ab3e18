[package]
name = "omni_bridge"
version = "0.1.0"
edition = "2021"
publish = false

[dependencies]
bs58 = "=0.5.1"
near-sdk = { version = "=5.29.1", features = ["non-contract-usage"] }
serde_json = "=1.0.154"
sha2 = "=0.10.9"
