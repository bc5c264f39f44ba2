[package]
name = "crypto_tool"
version = "0.1.0"
edition = "2021"
publish = false

[dependencies]
chacha20 = "0.8"
sha3 = "0.10"
rand = "0.8"
chrono = "0.4"
