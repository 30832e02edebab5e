[package]
name = "doc_ledger"
version = "0.1.0"
edition = "2021"
publish = false

[dependencies]
sha256 = { version = "=1.6.0", default-features = false }
chrono = "=0.4.45"
near-sdk = { version = "=5.29.1", features = ["non-contract-usage"] }
