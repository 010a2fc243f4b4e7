[package]
name = "alpenrose"
version = "0.1.0"
edition = "2021"
publish = false

[dependencies]
ratatui = "0.29"
crossterm = "0.28"
dirs = "5"
serde = { version = "1", features = ["derive"] }
toml = "0.8"
thiserror = "1"
color-eyre = "0.6"
log = "0.4"
env_logger = "0.11"
