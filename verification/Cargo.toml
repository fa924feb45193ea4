[package]
name = "spec_hashes"
version = "0.1.0"
edition = "2021"
publish = false

[dependencies]
ckb-chain-spec = "*"
ckb-types = "*"
ckb-resource = "*"
ckb-app-config = "*"
clap = "*"
serde = { version = "*", features = ["derive"] }
serde_json = "*"
toml = "*"
