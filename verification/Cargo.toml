[package]
name = "mrv_drwa"
version = "0.1.0"
edition = "2021"
publish = false

[dependencies]
multiversx-sc = "=0.66.2"
multiversx-sc-scenario = "=0.66.2"
multiversx-chain-vm = "=0.23.1"
multiversx-sc-snippets = "=0.66.2"
serde = { version = "=1.0.229", features = ["derive"] }
toml = "=1.1.8"
