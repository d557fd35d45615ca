[package]
name = "scilla"
version = "0.1.0"
edition = "2021"
publish = false

[dependencies]
anyhow = "=1.0.104"
bincode = "=1.3.3"
comfy-table = "=7.2.2"
console = "=0.16.6"
solana-clock = { version = "=4.0.0", features = ["serde"] }
solana-pubkey = "=4.4.0"
solana-sdk-ids = "=3.1.0"
solana-stake-history = { version = "=2.1.0", features = ["serde"] }
solana-stake-interface = { version = "=5.1.1", features = ["serde"] }
solana-sysvar = "=5.0.0"
