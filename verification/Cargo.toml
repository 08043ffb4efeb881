[package]
name = "gated_token"
version = "0.1.0"
edition = "2021"
publish = false

[dependencies]
alloy-primitives = { version = "=0.7.6", features = ["tiny-keccak"] }
alloy-sol-types = "=0.7.6"
openzeppelin-stylus = "=0.1.2"
ruint = { version = "=1.12.3", default-features = false }
stylus-proc = "=0.6.1"
stylus-sdk = "=0.6.1"
