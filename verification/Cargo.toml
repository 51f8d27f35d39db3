[package]
name = "offroad_frontier"
version = "0.1.0"
edition = "2021"
publish = false

[dependencies]
glam = { version = "0.29", features = ["serde"] }
rand = "0.8"
noise = "0.7"
serde = { version = "1", features = ["derive"] }
serde_json = "1"
bincode = "1"
log = "0.4"
env_logger = "0.10"
