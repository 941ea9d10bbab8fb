[package]
name = "discord_tui"
version = "0.1.0"
edition = "2021"
publish = false

[dependencies]
unicode-segmentation = "1"
unicode-width = "0.2"
chrono = "0.4"
crossterm = { version = "0.29", features = ["osc52"] }
arboard = { version = "3", default-features = false }
reqwest = { version = "0.12", default-features = false, features = ["json"] }
serde_json = "1"
tokio = { version = "1", features = ["rt", "sync", "macros"] }
ratatui = "0.29"
