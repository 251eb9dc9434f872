[package]
name = "allowlist_mint"
version = "0.1.0"
edition = "2021"
publish = false

[dependencies]
solana-program = "=2.3.0"
mpl-token-metadata = "=5.1.1"
spl-token = "8.0.0"
spl-associated-token-account = "7.0.0"
spl-token-2022 = "8.0.0"
anchor-lang = "0.31.1"
anchor-spl = "0.31.1"
