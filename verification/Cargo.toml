[package]
name = "picterm"
version = "0.1.0"
edition = "2021"
publish = false

[dependencies]
ansi_rgb = "0.2"
byte-unit = "4"
crossterm = "0.27"
eyre = "0.6"
fuzzy-matcher = "0.3"
image = { version = "0.24", default-features = false, features = ["png", "jpeg", "gif", "bmp", "webp"] }
ratatui = "0.23"
rgb = "0.8"
seahorse = "2"
tokio = { version = "1", features = ["full"] }
