[package]
name = "eltoo"
version = "0.1.0"
edition = "2021"
publish = false

[dependencies]
bitcoin = "=0.32.102"
lightning-types = "=0.3.5"
secp256k1 = "0.33"
