[package]
name = "hellox"
version = "0.1.0"
edition = "2021"
publish = false

[dependencies]
anyhow = "=1.0.104"
base64 = "=0.23.1"
crossterm = "=0.29.0"
dirs = "=7.0.0"
reqwest = { version = "=0.13.5", default-features = false }
serde = { version = "=1.0.229", features = ["derive"] }
serde_json = "=1.0.154"
sys-locale = "=0.3.2"
unicode-width = "=0.2.3"
