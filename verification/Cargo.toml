[package]
name = "nalai_core"
version = "0.1.0"
edition = "2021"
publish = false

[dependencies]
anyhow = "=1.0.104"
base64 = "=0.22.1"
headers = "=0.3.9"
http-downloader = { version = "=0.3.2", features = ["status-tracker", "speed-tracker", "speed-limiter", "breakpoint-resume", "bson-file-archiver"] }
once_cell = "=1.21.4"
reqwest = "=0.11.27"
salvo = "=1.0.1"
serde = { version = "=1.0.229", features = ["derive"] }
serde_json = "=1.0.154"
sled = "=0.34.7"
tokio = { version = "=1.54.1", features = ["full"] }
tracing = "=0.1.44"
tracing-subscriber = "=0.3.23"
url = "=2.5.8"
