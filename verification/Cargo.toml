[package]
name = "architect_api"
version = "0.1.0"
edition = "2021"
publish = false

[dependencies]
rust_decimal = "=1.43.0"
uuid = "=1.29.0"
chrono = "=0.4.45"
chrono-tz = "0.10"
regex = "1"
serde = { version = "=1.0.229", features = ["derive"] }
serde_json = "=1.0.154"
serde_repr = "0.1"
rmp-serde = "=1.3.1"
bytes = "=1.12.1"
tonic = "=0.12.3"
anyhow = "=1.0.104"
