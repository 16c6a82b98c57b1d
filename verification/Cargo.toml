[package]
name = "dota2_tui"
version = "0.1.0"
edition = "2021"
publish = false

[dependencies]
anyhow = "1"
base64 = "0.22"
chrono = "0.4"
crossterm = { version = "0.27", features = ["event-stream"] }
dirs = "5"
futures = "0.3"
image = { version = "0.24", default-features = false, features = ["png", "jpeg"] }
ratatui = "0.26"
reqwest = { version = "0.12", default-features = false, features = ["rustls-tls"] }
serde = { version = "1", features = ["derive"] }
serde_json = "1"
tokio = { version = "1", features = ["full"] }
toml = "0.8"
