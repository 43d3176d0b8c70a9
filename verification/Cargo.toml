[package]
name = "balanced_bridge"
version = "0.1.0"
edition = "2021"
publish = false

[dependencies]
rlp = "0.5.2"
solana-program = "1.18"
anchor-lang = { version = "0.30.1", features = ["init-if-needed"] }
anchor-spl = "0.30.1"
