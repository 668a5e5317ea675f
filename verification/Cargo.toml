[package]
name = "bitcoincore_rpc_sotatek"
version = "0.1.0"
edition = "2021"
publish = false

[dependencies]
anyhow = "1"
bitcoincore-rpc-json = "*"
reqwest = { version = "0.12", default-features = false, features = ["json"] }
serde = "1"
serde_json = "1"
