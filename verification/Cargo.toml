[package]
name = "ytbot"
version = "0.1.0"
edition = "2021"
publish = false

[dependencies]
frankenstein = { version = "=0.52.1", features = ["client-reqwest"] }
redis = "=0.27.6"
serde = { version = "=1.0.229", features = ["derive"] }
serde_json = "=1.0.154"
tokio = { version = "=1.54.1", features = ["full"] }
tempfile = "=3.27.0"
toml = "=1.1.8"
log = "=0.4.35"
env_logger = "=0.11.11"
