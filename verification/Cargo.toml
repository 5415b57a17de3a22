[package]
name = "obs_webrtc"
version = "0.1.0"
edition = "2021"
publish = false

[dependencies]
anyhow = "=1.0.104"
base64 = "=0.13.1"
bytes = "=1.12.1"
reqwest = { version = "=0.11.27", default-features = false, features = ["json"] }
serde_json = "=1.0.154"
tokio = { version = "=1.54.1", features = ["rt-multi-thread", "macros", "time", "sync", "signal"] }
webrtc = "=0.6.0"
