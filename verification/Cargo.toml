[package]
name = "ws_bridge"
version = "0.1.0"
edition = "2021"
publish = false

[dependencies]
http = "*"
tokio = { version = "1", features = ["rt", "net", "sync", "time", "macros", "io-util"] }
tokio-tungstenite = "*"
futures-util = "*"
