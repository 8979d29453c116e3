[package]
name = "project_cache"
version = "0.1.0"
edition = "2021"
publish = false

[dependencies]
chrono = "*"
serde = { version = "*", features = ["derive"] }
serde_json = "*"
url = "*"
uuid = { version = "*", features = ["serde", "v4"] }
bytes = "*"
