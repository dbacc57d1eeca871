[package]
name = "mini_kv"
version = "0.1.0"
edition = "2021"
publish = false

[dependencies]
bytes = "1"
env_logger = "0.11"
log = "0.4"
mini-redis = "0.4"
tokio = { version = "1", features = ["full"] }
