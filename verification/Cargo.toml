[package]
name = "player_ui"
version = "0.1.0"
edition = "2021"
publish = false

[dependencies]
crossterm = { version = "0.28", features = ["event-stream"] }
eyre = "0.6"
futures = "0.3"
tokio = { version = "1", features = ["rt", "sync", "time"] }
