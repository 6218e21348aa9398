[package]
name = "qwery-sdk"
version = "0.1.0"
edition = "2021"
publish = false

[dependencies]
base64 = "0.22"
bincode = "1.3"
reqwest = { version = "0.12", default-features = false, features = ["json", "default-tls"] }
serde = { version = "1", features = ["derive"] }
serde_json = "1"
solana-sdk = "1.18"
thiserror = "1"
