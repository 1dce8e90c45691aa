[package]
name = "lending-borrowing-market-compound-v2"
version = "0.1.0"
edition = "2021"
publish = false

[dependencies]
anchor-lang = { version = "=1.2.2", features = ["init-if-needed"] }
anchor-spl = "=1.2.2"
pyth-solana-receiver-sdk = "=2.0.0"
