[package]
name = "doubao_tts"
version = "0.1.0"
edition = "2021"
publish = false

[dependencies]
uuid = { version = "*", features = ["v4"] }
tokio = { version = "*", features = ["rt-multi-thread", "macros", "net", "time"] }
tokio-tungstenite = "*"
futures-util = "*"
