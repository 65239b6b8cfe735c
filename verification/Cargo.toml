[package]
name = "deepgram_session"
version = "0.1.0"
edition = "2021"
publish = false

[dependencies]
serde_json = "*"
serde = { version = "*", features = ["derive"] }
tokio = { version = "*", features = ["sync", "rt", "rt-multi-thread", "macros", "net", "time"] }
tokio-tungstenite = "*"
http = "*"
futures-util = "*"
