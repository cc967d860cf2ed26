[package]
name = "payment"
version = "0.1.0"
edition = "2021"
publish = false

[dependencies]
near-sdk = { version = "=4.1.1", default-features = false, features = ["legacy"] }
serde_json = "=1.0.154"
