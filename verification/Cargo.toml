[package]
name = "bclean"
version = "0.1.0"
edition = "2021"
publish = false

[dependencies]
anyhow = "*"
clap = { version = "*", features = ["derive"] }
crossterm = "*"
dunce = "*"
env_logger = "*"
log = "*"
ratatui = "*"
tui-logger = "*"
