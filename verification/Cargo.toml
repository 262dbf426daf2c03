[package]
name = "ryo_control"
version = "0.1.0"
edition = "2021"
publish = false

[dependencies]
tokio = { version = "=1.54.1", features = ["full"] }
futures = "=0.3.34"
log = "=0.4.35"
env_logger = "=0.11.11"
signal-hook = "=0.3.18"
