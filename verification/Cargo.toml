[package]
name = "black_hole"
version = "0.1.0"
edition = "2021"
publish = false

[dependencies]
serde_json = "*"
anyhow = "*"
base64 = "*"
uuid = { version = "*", features = ["v4"] }
tokio = { version = "*", features = ["full"] }
tokio-rustls = "*"
tokio-tungstenite = "*"
futures-util = "*"
