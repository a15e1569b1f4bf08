[package]
name = "dst"
version = "0.1.0"
edition = "2021"
publish = false

[dependencies]
antithesis_sdk = "0.2"

[dev-dependencies]
serde_json = "1"
