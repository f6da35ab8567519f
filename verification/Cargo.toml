[package]
name = "colored_logcat"
version = "0.1.0"
edition = "2021"
publish = false

[dependencies]
chrono = "0.4"
crossterm = "*"
ratatui = "*"
regex = "1"
serde_json = "1"
