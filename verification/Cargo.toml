[package]
name = "oekakusa"
version = "0.1.0"
edition = "2021"
publish = false

[dependencies]
rusqlite = { version = "=0.40.2", features = ["bundled", "serialize"] }
image = { version = "=0.25.10", default-features = false, features = ["png", "gif"] }
tempfile = "=3.27.0"
chrono = "=0.4.45"
notify = "=8.2.0"
serde = { version = "=1.0.229", features = ["derive"] }
serde_json = "*"
