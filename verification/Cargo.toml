[package]
name = "bevy_repl"
version = "0.4.1"
edition = "2021"
publish = false

[dependencies]
shell-words = "=1.1.1"
clap = "=4.6.7"
ratatui = "=0.29.0"
crossterm = "=0.28.1"
bevy = { version = "=0.17.3", default-features = false, features = ["std", "bevy_log", "async_executor"] }
bevy_ratatui = "=0.10.0"
tracing-subscriber = "=0.3.23"
color-eyre = "=0.6.5"
anyhow = "=1.0.104"
