[package]
name = "websocket_stream"
version = "0.1.0"
edition = "2021"
publish = false

[dependencies]
axum = { version = "=0.7.9", features = ["ws"] }
bytes = "=1.12.1"
futures = "=0.3.34"
http = "=1.5.0"
log = "=0.4.35"
serde_json = "=1.0.154"
tokio = { version = "=1.54.1", features = ["sync", "rt", "macros", "net"] }
tokio-tungstenite = "=0.21.0"
