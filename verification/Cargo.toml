[package]
name = "vault_types"
version = "0.1.0"
edition = "2021"
publish = false

[dependencies]
ffi-support = "0.4"
hex = "0.4"
subtle = "2"
zeroize = "1"
