[package]
name = "jldocset"
version = "0.1.0"
edition = "2021"
publish = false

[dependencies]
anyhow = "*"
env_logger = "*"
rusqlite = { version = "*", features = ["bundled"] }
serde_json = "*"
