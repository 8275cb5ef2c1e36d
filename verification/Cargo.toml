[package]
name = "sleepmode"
version = "1.4.0"
edition = "2021"
publish = false

[dependencies]
chrono = "0.4"
futures-util = "*"
openaction = "*"
serde = { version = "1", features = ["derive"] }
serde_json = "1"
tokio = { version = "1", features = ["full"] }
tokio-tungstenite = "*"
tungstenite = "*"
