[package]
name = "gitbase"
version = "0.1.0"
edition = "2021"
publish = false

[dependencies]
base64 = "0.22"
bech32 = "0.11"
blake3 = "1"
lru = "0.12"
sha3 = "0.10"
anyhow = "1"
async-trait = "0.1"
chrono = "0.4"
error-stack = "0.5"
http = "1"
octocrab = "0.43"
serde = { version = "1", features = ["derive"] }
serde_json = "1"
thiserror = "1"
tokio = { version = "1", features = ["rt", "sync", "time"] }
