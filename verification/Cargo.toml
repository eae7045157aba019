[package]
name = "asset_extension"
version = "0.1.0"
edition = "2021"
publish = false

[dependencies]
serde_json = "1"
cosmwasm-std = "2"
cosmwasm-schema = "2"
cw2 = "2"
cw-storage-plus = "2"
serde = { version = "1", features = ["derive"] }
schemars = "0.8"
thiserror = "1"
