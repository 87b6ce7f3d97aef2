[package]
name = "request_router"
version = "0.1.0"
edition = "2021"
publish = false

[dependencies]
serde = { version = "=1.0.229", features = ["derive"] }
serde_json = "=1.0.151"
bytes = "=1.12.1"
hyper = "=1.11.1"
http-body-util = "=0.1.5"
custom_logger = "=0.1.0"
chrono = "=0.4.45"
