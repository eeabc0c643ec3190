[package]
name = "solana_client_wasm"
version = "0.1.0"
edition = "2021"
publish = false

[dependencies]
reqwest = { version = "=0.11.27", default-features = false }
serde = { version = "=1.0.229", default-features = false }
serde_json = "=1.0.154"
solana-commitment-config = "=2.2.1"
solana-hash = "=2.3.0"
solana-message = "=2.4.0"
solana-rpc-client-api = "=2.2.20"
solana-signature = "=2.3.0"
solana-transaction = { version = "=2.2.3", features = ["bincode"] }
solana-version = "=2.2.20"
tokio = { version = "=1.54.1", default-features = false, features = ["time"] }
