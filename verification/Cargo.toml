[package]
name = "rustfinal"
version = "0.1.0"
edition = "2021"
publish = false

[dependencies]
env_logger = "0.11"
log = "0.4"
reqwest = "0.12"
tokio = { version = "1", features = ["full"] }
