[package]
name = "solana-secp256k1"
version = "0.1.0"
edition = "2021"
publish = false

[dependencies]
dashu = "=0.6.2"
solana-nostd-secp256k1-recover = "=0.2.0"
solana-program = "=2.3.0"
solana-program-error = "=3.0.1"

[dev-dependencies]
k256 = "=0.13.4"
