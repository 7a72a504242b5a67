[package]
name = "speech_relay"
version = "0.1.0"
edition = "2021"
publish = false

[dependencies]
dotenvy = "0.15"
futures-util = "0.3"
serde = { version = "1", features = ["derive"] }
serde_json = "1"
tokio = { version = "1", features = ["sync", "rt-multi-thread", "macros"] }
tokio-tungstenite = { version = "0.24", features = ["native-tls"] }
