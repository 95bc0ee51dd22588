[package]
name = "solana_trading_sdk"
version = "0.1.0"
edition = "2021"
publish = false

[dependencies]
anyhow = "=1.0.104"
base64 = "=0.23.1"
bincode = "=1.3.3"
futures = "=0.3.34"
rand = "=0.10.3"
reqwest = { version = "=0.12.28", default-features = false, features = ["json", "rustls-tls"] }
serde = { version = "=1.0.229", features = ["derive"] }
serde_json = "=1.0.151"
solana-compute-budget-interface = "*"
solana-sdk = "=5.0.0"
solana-sdk-ids = "=3.1.0"
solana-system-interface = { version = "=3.3.0", features = ["bincode"] }
tokio = { version = "=1.53.2", features = ["rt-multi-thread", "macros", "time"] }
