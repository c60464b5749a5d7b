[package]
name = "devnet_token_faucet"
version = "0.1.0"
edition = "2021"
publish = false

[dependencies]
anchor-lang = "=1.2.1"
anchor-spl = { version = "=1.2.1", default-features = false, features = ["token", "solana-v3"] }
spl-associated-token-account = { version = "=8.0.0", features = ["no-entrypoint"] }
