[package]
name = "gecko_random_minter"
version = "0.1.0"
edition = "2021"
publish = false

[dependencies]
cosmwasm-schema = "1.5"
cosmwasm-std = "1.5"
cw-storage-plus = "1.2"
cw-utils = "1.0"
cw2 = "1.1"
cw721-base = { version = "0.18", features = ["library"] }
sha2 = "0.10"
thiserror = "1"
