[package]
name = "wiremix"
version = "0.1.0"
edition = "2021"
publish = false

[dependencies]
ratatui = { version = "=0.29.0", features = ["serde"] }
regex = "=1.13.1"
clap = { version = "=4.6.7", features = ["derive"] }
serde = { version = "=1.0.229", features = ["derive"] }
toml = "=1.1.8"
serde_ignored = "=0.1.14"
anyhow = "=1.0.104"
