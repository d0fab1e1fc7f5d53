[package]
name = "wallet_core"
version = "0.1.0"
edition = "2021"
publish = false

[dependencies]
tari_crypto = "*"
tari_utilities = "*"
blake2 = "*"
digest = "*"
chacha20poly1305 = "*"
