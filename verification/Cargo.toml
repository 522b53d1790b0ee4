[package]
name = "keysign"
version = "0.1.0"
edition = "2021"
publish = false

[dependencies]
hex = "=0.4.3"
rand = "=0.8.8"
secp256k1 = "=0.29.1"
sha2 = "=0.10.9"
