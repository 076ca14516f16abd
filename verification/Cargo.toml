[package]
name = "edition_mint"
version = "0.1.0"
edition = "2021"
publish = false

[dependencies]
mpl-token-metadata = "=5.1.1"
solana-program = "=5.1.0"
