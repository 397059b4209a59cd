[package]
name = "dca_core"
version = "0.1.0"
edition = "2021"
publish = false

[dependencies]
astroport = "=5.9.0"
cosmwasm-std = "=1.5.11"
cw-storage-plus = "=1.2.0"
cw20 = "=1.1.2"
serde = { version = "=1.0.229", features = ["derive"] }
