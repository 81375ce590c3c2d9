[package]
name = "nca_cli"
version = "0.1.0"
edition = "2021"
publish = false

[dependencies]
unicode-width = "0.2"
similar = "=2.7.0"
chrono = "=0.4.45"
serde = { version = "=1.0.229", features = ["derive"] }
serde_json = "=1.0.154"
clap = { version = "=4.6.7", features = ["derive"] }
clap_complete = "=4.6.11"
anyhow = "=1.0.104"
crossterm = "=0.28.1"
tokio = { version = "=1.54.1", features = ["full"] }
base64 = "=0.22.1"
ratatui = { version = "0.29", default-features = false }
