[package]
name = "arbitrage_finder"
version = "0.1.0"
edition = "2021"
publish = false

[dependencies]
clap = { version = "=4.6.7", features = ["derive"] }
pyth-sdk = "0.8"
pyth-sdk-solana = "0.9.0"
rust_decimal = { version = "=1.43.0", default-features = false, features = ["std"] }
tokio = { version = "=1.54.1", features = ["macros", "rt-multi-thread", "sync", "time"] }
