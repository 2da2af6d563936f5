[package]
name = "daph"
version = "0.1.0"
edition = "2021"
publish = false

[dependencies]
color-eyre = "0.6"
crossterm = "0.28"
env_logger = "*"
home = "*"
lofty = "*"
rand = "0.9"
ratatui = "0.29"
rodio = "0.20"
rppal = "*"
serde = { version = "1", features = ["derive"] }
toml = "*"
walkdir = "2"
