[package]
name = "mongo_repository"
version = "0.1.0"
edition = "2021"
publish = false

[dependencies]
mongodb = "=3.9.1"
serde = { version = "=1.0.229", features = ["derive"] }
serde_json = "=1.0.154"
futures = "=0.3.34"
log = "=0.4.35"
tokio = { version = "=1.54.1", features = ["rt", "time", "macros"] }
