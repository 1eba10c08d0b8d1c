[package]
name = "shenyu_client"
version = "0.1.0"
edition = "2021"
publish = false

[dependencies]
serde_json = "=1.0.151"
serde = { version = "=1.0.229", features = ["derive"] }
serde_yaml = "=0.9.34"
reqwest = { version = "=0.13.5", default-features = false, features = ["blocking", "query"] }
local-ip-address = "=0.6.13"
axum = "=0.8.9"
tower-service = "=0.3.3"
