[package]
name = "editor_core"
version = "0.1.0"
edition = "2021"
publish = false

[dependencies]
anyhow = "=1.0.104"
chrono = "=0.4.45"
crossterm = "=0.29.0"
dirs = "=7.0.0"
ratatui = "=0.30.2"
rquickjs = "=0.14.0"
serde = { version = "=1.0.229", features = ["derive"] }
serde_json = "=1.0.151"
tokio = { version = "=1.53.2", default-features = false, features = ["sync"] }
tracing = "=0.1.44"
