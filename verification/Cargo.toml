[package]
name = "its_app"
version = "0.1.0"
edition = "2021"
publish = false

[dependencies]
soroban-sdk = "=25.3.2"
soroban-token-sdk = "=25.3.2"
stellar-axelar-std = { version = "=2.0.1", features = ["derive"] }
stellar-interchain-token-service = { version = "=2.1.1", features = ["library"] }
