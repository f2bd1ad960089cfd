[package]
name = "blackjack"
version = "0.1.0"
edition = "2021"
publish = false

[dependencies]
rand = { version = "0.8", features = ["small_rng"] }
cosmwasm-std = "1"
cw2 = "1"
cw20 = "1"
cw20-base = "1"
cw-storage-plus = "1"
cw-utils = "1"
schemars = "0.8"
serde = { version = "1", features = ["derive"] }
thiserror = "1"
