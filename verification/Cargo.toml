[package]
name = "mpc_session"
version = "0.1.0"
edition = "2021"
publish = false

[dependencies]
curv-kzen = "=0.9.0"
multi-party-ecdsa = "=0.8.1"
round-based = "=0.1.7"
sha2 = "=0.9.9"
