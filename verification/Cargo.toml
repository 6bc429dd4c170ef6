[package]
name = "async-dashscope"
version = "0.1.0"
edition = "2021"
publish = false

[dependencies]
async-stream = "0.3"
backoff = { version = "0.4", features = ["tokio"] }
base64 = "0.22"
bytes = "1"
futures-util = "0.3"
hound = "3"
reqwest = { version = "0.12", features = ["json", "multipart", "stream"] }
reqwest-eventsource = "0.6"
reqwest-websocket = "0.5"
secrecy = "0.10"
serde = { version = "1", features = ["derive"] }
serde_json = "1"
thiserror = "2"
tokio = { version = "1", features = ["fs", "io-util", "macros", "rt-multi-thread", "sync", "time"] }
tokio-stream = "0.1"
url = "2"
uuid = { version = "1", features = ["v4"] }
