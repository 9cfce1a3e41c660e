[package]
name = "token_ledger"
version = "0.1.0"
edition = "2021"
publish = false

[dependencies]
clap = { version = "=4.6.7", features = ["derive"] }
dotenv = "=0.15.0"
ed25519-dalek = "2"
serde = { version = "=1.0.229", features = ["derive"] }
sp1-zkvm = "=4.2.1"
