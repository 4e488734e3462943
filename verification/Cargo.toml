[package]
name = "streamchat"
version = "0.1.0"
edition = "2021"
publish = false

[dependencies]
serde_json = "*"
serde = { version = "*", features = ["derive"] }
reqwest = { version = "*", default-features = false, features = ["json", "stream"] }
tokio = { version = "*", features = ["rt-multi-thread"] }
futures-util = "*"
crossterm = "*"
ratatui = "*"
