[package]
name = "flash_loan"
version = "0.1.0"
edition = "2021"
publish = false

[dependencies]
anchor-lang = { version = "=1.2.1", features = ["init-if-needed"] }
anchor-spl = { version = "=1.2.1" }
solana-pubkey = { version = "=3.0.0", features = ["curve25519"] }
