[package]
name = "charon"
version = "0.1.0"
edition = "2021"
publish = false

[dependencies]
serde = { version = "1", features = ["derive"] }
serde_json = "1"
structopt = "0.3"
env_logger = "0.9"
chrono = "0.4"
log = "0.4"
