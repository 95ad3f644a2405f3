[package]
name = "doctor"
version = "0.1.0"
edition = "2021"
publish = false

[dependencies]
toml = "*"
anyhow = "*"
log = "*"
env_logger = "*"
clap = { version = "*", features = ["derive"] }
