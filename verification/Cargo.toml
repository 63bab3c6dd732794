[package]
name = "convo_browser"
version = "0.1.0"
edition = "2021"
publish = false

[dependencies]
anyhow = "*"
backtrace = "*"
crossterm = "*"
env_logger = "*"
log = "*"
ratatui = "*"
scopeguard = "*"
