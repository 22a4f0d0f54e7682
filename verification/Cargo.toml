[package]
name = "beacon_core"
version = "0.1.0"
edition = "2021"
publish = false

[dependencies]
ethereum_hashing = "*"
ethereum_ssz = "0.5"
ethereum_ssz_derive = "0.5"
serde = { version = "1", features = ["derive"] }
