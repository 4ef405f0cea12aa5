[package]
name = "ristretto_bulletproofs"
version = "0.1.0"
edition = "2021"
publish = false

[dependencies]
curve25519-dalek = { version = "4", features = ["digest"] }
sha2 = "0.10"
