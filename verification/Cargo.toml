[package]
name = "quorum_proof"
version = "0.1.0"
edition = "2021"
publish = false

[dependencies]
threshold_crypto = "=0.4.0"
bincode = "=1.3.3"
serde = { version = "=1.0.229", features = ["derive"] }

[dev-dependencies]
rand = "0.7"
