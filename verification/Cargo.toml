[package]
name = "ambur_registry"
version = "0.1.0"
edition = "2021"
publish = false

[dependencies]
cosmwasm-schema = "1.5"
cosmwasm-std = "1.5"
cw-storage-plus = "1.2"
cw2 = "1.1"
cw721-base = { version = "0.18", features = ["library"] }
serde-json-wasm = "0.5"
