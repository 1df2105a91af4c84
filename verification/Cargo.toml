[package]
name = "solana_poker"
version = "0.1.0"
edition = "2021"
publish = false

[dependencies]
serde = { version = "=1.0.229", features = ["derive"] }
serde_derive = "=1.0.229"
bincode = "=1.3.3"
num-derive = "=0.3.3"
num-traits = "=0.2.19"
thiserror = "=1.0.69"
solana-sdk = { version = "=1.3.23", features = ["program"] }
spl-token = { version = "=2.0.8", features = ["program", "no-entrypoint"] }
