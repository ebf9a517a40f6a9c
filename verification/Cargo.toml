[package]
name = "solana_escrow_engine"
version = "0.1.0"
edition = "2021"
publish = false

[dependencies]
anchor-lang = "=1.2.1"
anchor-spl = "=1.2.1"
anyhow = "=1.0.104"
clap = { version = "=4.6.7", features = ["derive"] }
shellexpand = "=3.1.2"
solana-sdk = "=5.0.0"
spl-associated-token-account = "=8.0.0"
spl-token = "=9.0.0"
tokio = { version = "=1.54.1", features = ["macros", "rt-multi-thread"] }
