[package]
name = "ws_session"
version = "0.1.0"
edition = "2021"
publish = false

[dependencies]
uuid = { version = "1", features = ["v4"] }
tungstenite = { version = "0.20", default-features = false, features = ["handshake"] }
