[package]
name = "marketplace"
version = "0.1.0"
edition = "2021"
publish = false

[dependencies]
cosmwasm-std = "1"
cw-utils = "1"
cw-storage-plus = "1"
cw2 = "1"
cw721 = "0.18"
cw721-base = "0.18"
schemars = "0.8"
semver = "1"
serde = { version = "1", default-features = false, features = ["derive"] }
thiserror = "1"
sg-std = "*"
sg-controllers = "*"
sg721 = "*"
