[package]
name = "yt_monitor"
version = "0.1.0"
edition = "2021"
publish = false

[dependencies]
iced_native = "=0.8.0"
iced_core = "=0.7.0"
reqwest = { version = "0.11", features = ["blocking"] }
serde = { version = "1", features = ["derive"] }
serde_json = "1"
