[package]
name = "status_service"
version = "0.1.0"
edition = "2021"
publish = false

[dependencies]
anyhow = "1"
bb8-redis = "*"
env_logger = "*"
log = "0.4"
prost = "0.13"
tokio = { version = "1", features = ["macros", "rt-multi-thread", "sync", "time"] }
tonic = "0.12"
