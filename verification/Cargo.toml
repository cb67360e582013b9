[package]
name = "auox"
version = "0.1.0"
edition = "2021"
publish = false

[dependencies]
chrono = "=0.4.45"
crossterm = "=0.29.0"
dirs = "=7.0.0"
env_logger = "=0.11.11"
log = "=0.4.34"
open = "=5.4.5"
ratatui = "=0.30.2"
reqwest = { version = "=0.13.5", features = ["blocking", "form", "json"] }
serde = { version = "=1.0.229", features = ["derive"] }
serde_json = "=1.0.154"
tachyonfx = "=0.25.2"
toml = "=1.1.8"
tui-input = "=0.15.5"
