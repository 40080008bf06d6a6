[package]
name = "discord_tokio"
version = "0.1.0"
edition = "2021"
publish = false

[dependencies]
base64 = "*"
chrono = "*"
rand = "*"
serde_json = "*"
serde = { version = "*", features = ["derive"] }
tokio = { version = "*", features = ["rt", "time", "sync", "macros"] }
reqwest = { version = "*", features = ["json"] }
futures = "*"
websockets = "*"
