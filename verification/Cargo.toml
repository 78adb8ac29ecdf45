[package]
name = "dutch_auction"
version = "0.1.0"
edition = "2021"
publish = false

[dependencies]
soroban-sdk = "=23.0.3"

[dev-dependencies]
rand = "=0.7.3"
