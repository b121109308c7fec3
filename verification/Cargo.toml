[package]
name = "gemini-live-api"
version = "0.1.0"
edition = "2021"
publish = false

[dependencies]
serde = { version = "1", features = ["derive"] }
serde_json = "1"
base64 = "0.22"
url = "2"
tokio = { version = "1", features = ["sync", "time", "rt", "rt-multi-thread", "macros", "net"] }
tokio-tungstenite = "*"
futures-util = { version = "0.3", features = ["sink"] }
tracing = "0.1"
thiserror = "*"
syn = { version = "2", features = ["full"] }
quote = "1"
proc-macro2 = "1"
