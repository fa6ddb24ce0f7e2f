[package]
name = "omne_tui"
version = "0.1.0"
edition = "2021"
publish = false

[dependencies]
unicode-width = "0.2"
time = { version = "0.3", features = ["parsing", "formatting"] }
serde_json = "1"
ratatui = "0.29"
