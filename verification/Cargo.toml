[package]
name = "lumina_rcs"
version = "0.1.0"
edition = "2021"
publish = false

[dependencies]
serde = { version = "1", features = ["derive"] }
serde_json = "1"
base64 = "=0.22.1"
uuid = { version = "1", features = ["v4"] }
tokio = { version = "1", features = ["process", "io-util", "sync", "rt", "macros"] }
log = "0.4"
env_logger = "0.11"
anyhow = "1"
url = "2"
