[package]
name = "fusion_escrow"
version = "0.1.0"
edition = "2021"
publish = false

[dependencies]
sp-core = "*"
sp-runtime = "*"
sp-crypto-hashing = "*"
frame-support = "*"
serde = { version = "1", features = ["derive"] }
