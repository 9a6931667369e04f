[package]
name = "events"
version = "0.1.0"
edition = "2021"
publish = false

[dependencies]
anchor-lang = "=1.2.2"
anchor-spl = { version = "=1.2.2", default-features = false, features = ["associated_token", "token_2022", "token_2022_extensions", "solana-v3"] }
solana-sdk-ids = "=3.1.0"
