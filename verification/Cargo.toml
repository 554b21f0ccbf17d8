[package]
name = "gameboy_core"
version = "0.1.0"
edition = "2021"
publish = false

[dependencies]
anyhow = "=1.0.104"
clap = { version = "=4.6.7", features = ["derive"] }
color-eyre = "=0.6.5"
crossbeam-channel = "=0.5.17"
crossterm = "=0.28.1"
env_logger = "=0.11.11"
error-iter = "=0.4.1"
log = "=0.4.34"
pixels = { version = "0.15", default-features = false }
ratatui = "=0.29.0"
tui-logger = "=0.14.5"
winit = { version = "0.30", default-features = false, features = ["x11", "rwh_06"] }
