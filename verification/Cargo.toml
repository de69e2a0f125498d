[package]
name = "umbra"
version = "0.1.0"
edition = "2021"
publish = false

[dependencies]
bulletproofs = "4"
curve25519-dalek-ng = "4"
merlin = "3"
rand_core = { version = "0.6", features = ["getrandom"] }
sha3 = "0.9"
soroban-sdk = "21"

[dev-dependencies]
ed25519-dalek = "2"
