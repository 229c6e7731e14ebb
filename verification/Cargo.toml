[package]
name = "icns"
version = "0.1.0"
edition = "2021"
publish = false

[dependencies]
cosmwasm-std = "=1.5.11"
cosmwasm-schema = "=1.5.11"
cw2 = "=0.16.0"
cw721 = "=0.16.0"
cw721-base = "=0.16.0"
cw-storage-plus = "=0.16.0"
subtle-encoding = { version = "=0.5.1", features = ["bech32-preview"] }
serde = { version = "=1.0.229", default-features = false, features = ["derive"] }
sha2 = "=0.10.9"
