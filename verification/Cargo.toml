[package]
name = "agent_ledgers"
version = "0.1.0"
edition = "2021"
publish = false

[dependencies]
multiversx-sc = "*"
multiversx-sc-modules = "*"
multiversx-sc-snippets = "*"
serde = { version = "1", features = ["derive"] }
toml = "*"
env_logger = "*"
