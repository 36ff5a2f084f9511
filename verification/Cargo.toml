[package]
name = "webuntis"
version = "0.1.0"
edition = "2021"
publish = false

[dependencies]
anyhow = "*"
chrono = "*"
chrono-tz = "*"
clap = { version = "*", features = ["derive"] }
env_logger = "*"
log = "*"
reqwest = { version = "*", default-features = false, features = ["blocking", "json", "cookies", "rustls-tls"] }
serde = { version = "*", features = ["derive"] }
serde_json = "*"
