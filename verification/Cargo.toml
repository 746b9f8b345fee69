[package]
name = "a2a_client"
version = "0.1.0"
edition = "2021"
publish = false

[dependencies]
base64 = "0.22"
uuid = { version = "1", features = ["v7"] }
chrono = "0.4"
reqwest = { version = "0.12", default-features = false, features = ["blocking", "stream"] }
tokio = { version = "1", features = ["rt", "rt-multi-thread", "sync", "time", "macros"] }
tokio-tungstenite = "0.24"
futures = "0.3"
url = "2"
bytes = "1"
