[package]
name = "logline"
version = "0.1.0"
edition = "2021"
publish = false

[dependencies]
chrono = { version = "0.4", default-features = false, features = ["clock", "std"] }
colored = "2"
env_logger = { version = "0.11", default-features = false }
log = "0.4"
