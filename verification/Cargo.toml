[package]
name = "tx_builder"
version = "0.1.0"
edition = "2021"
publish = false

[dependencies]
fuel-crypto = { version = "=0.66.4", features = ["random"] }
rand = "=0.8.8"
