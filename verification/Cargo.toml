[package]
name = "liquidity_pool"
version = "0.1.0"
edition = "2021"
publish = false

[dependencies]
cosmwasm-std = "=0.14.1"
cw-storage-plus = "=0.6.2"
cw20 = "=0.6.2"
cw20-base = { version = "=0.6.2", features = ["library"] }
schemars = "0.8"
serde = { version = "1", default-features = false, features = ["derive"] }
