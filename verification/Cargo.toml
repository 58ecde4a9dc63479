[package]
name = "keyring"
version = "0.1.0"
edition = "2021"
publish = false

[dependencies]
bitcoin = "=0.23.0"
bitcoin-wallet = "=1.1.0"
rust-crypto = "=0.2.36"
k256 = "=0.13.4"
eyre = "=0.6.14"
serde_json = "=1.0.151"
toml = "=1.1.6"
