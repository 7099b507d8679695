[package]
name = "consensus_bridge"
version = "0.1.0"
edition = "2021"
publish = false

[dependencies]
anyhow = "*"
serde = { version = "*", features = ["derive"] }
zksync_consensus_crypto = "*"
zksync_consensus_roles = "*"
