[package]
name = "portaltech"
version = "0.1.0"
edition = "2021"
publish = false

[dependencies]
anyhow = "1"
axum = { version = "0.7", features = ["ws"] }
base64 = "0.22"
clap = { version = "4", features = ["derive", "env"] }
crossterm = "0.27"
dotenvy = "0.15"
env_logger = "0.11"
futures-util = { version = "0.3", features = ["sink"] }
http = "1"
log = "0.4"
nanoid = "0.4"
ratatui = "0.26"
reqwest = { version = "0.12", default-features = false }
serde = { version = "1", features = ["derive"] }
serde_json = "1"
tokio = { version = "1", features = ["full"] }
tokio-tungstenite = "0.24"
