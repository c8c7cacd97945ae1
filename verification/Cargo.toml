[package]
name = "oracle_pubsub"
version = "0.1.0"
edition = "2021"
publish = false

[dependencies]
soroban-sdk = { version = "=20.5.0" }
soroban-kit = { version = "=0.1.11", default-features = false, features = ["oracle"] }
