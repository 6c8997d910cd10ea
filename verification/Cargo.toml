[package]
name = "deal_platform"
version = "0.1.0"
edition = "2021"
publish = false

[dependencies]
solana-program = "=2.3.0"
spl-token = { version = "=6.0.0", features = ["no-entrypoint"] }
clap = { version = "=4.5.61", features = ["derive"] }
anyhow = "=1.0.104"
