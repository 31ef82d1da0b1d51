[package]
name = "menace"
version = "0.1.0"
edition = "2021"
publish = false

[dependencies]
crossterm = "=0.28.1"
ratatui = { version = "=0.29.0", features = ["unstable-rendered-line-info"] }
