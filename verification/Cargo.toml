[package]
name = "langbot"
version = "0.1.0"
edition = "2021"
publish = false

[dependencies]
chrono = "=0.4.45"
chrono-tz = "=0.8.6"
serde = { version = "=1.0.229", features = ["derive"] }
serde_json = "=1.0.154"
tokio = { version = "=1.54.1", features = ["full"] }
async-trait = "=0.1.92"
mongodb = "=2.8.2"
reqwest = "=0.11.27"
frankenstein = { version = "=0.38.0", features = ["async-http-client"] }
