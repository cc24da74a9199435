[package]
name = "sword_web"
version = "0.1.0"
edition = "2021"
publish = false

[dependencies]
axum = "=0.8.9"
axum-helmet = "=1.0.2"
axum_responses = "=0.5.5"
console = "=0.16.6"
serde = { version = "=1.0.229", features = ["derive"] }
serde_json = "=1.0.151"
socketioxide = { version = "=0.18.7", features = ["msgpack"] }
tower = { version = "=0.5.3", features = ["util"] }
tower-cookies = "=0.11.0"
tower-http = { version = "=0.7.1", features = ["limit", "timeout", "compression-full", "fs", "cors", "request-id"] }
tower-layer = "=0.3.3"
uuid = "=1.27.0"
