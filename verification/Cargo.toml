[package]
name = "gh-config"
version = "0.5.0"
edition = "2021"
publish = false

[dependencies]
anyhow = "=1.0.104"
base64 = "=0.22.1"
clap = { version = "=4.6.7", features = ["derive"] }
dirs = "=7.0.0"
hex = "=0.4.3"
secret-service = { version = "=5.2.0", features = ["rt-async-io-crypto-rust"] }
security-framework = "=3.7.0"
serde = { version = "=1.0.229", features = ["derive"] }
serde_json = "=1.0.154"
serde_yaml = "=0.9.34"
thiserror = "=2.0.21"
windows = { version = "=0.58.0", features = ["Win32_Foundation", "Win32_Security_Credentials"] }
