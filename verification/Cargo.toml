[package]
name = "rust-effects"
version = "0.1.0"
edition = "2021"
publish = false

[dependencies]
ratatui = "0.29.0"
ratzilla = "0.2.0"
tachyonfx = "0.19.0"
