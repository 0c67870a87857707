[package]
name = "relay_core"
version = "0.1.0"
edition = "2021"
publish = false

[dependencies]
chrono = "=0.4.45"
rcgen = "=0.14.10"
serde = { version = "=1.0.229", features = ["derive"] }
serde_json = "=1.0.151"
tokio = { version = "=1.53.2", features = ["full"] }
http-mitm-proxy = "=0.18.0"
http-body-util = { version = "=0.1.5", features = ["channel"] }
bytes = "=1.12.1"
