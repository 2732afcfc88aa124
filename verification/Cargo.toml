[package]
name = "cafeteria"
version = "0.1.0"
edition = "2021"
publish = false

[dependencies]
rand = "0.7"
log = "0.4"
env_logger = "0.10"
dotenv = "0.15"
actix = "0.13"
actix-rt = "2"
tokio = { version = "1", features = ["full"] }
tokio-stream = { version = "0.1", features = ["io-util"] }
serde = { version = "1", features = ["derive"] }
serde_json = "1"
