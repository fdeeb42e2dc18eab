[package]
name = "aira_brain"
version = "0.1.0"
edition = "2021"
publish = false

[dependencies]
anyhow = "=1.0.104"
axum = { version = "=0.7.9", features = ["multipart"] }
base64 = "=0.22.1"
crossterm = "0.27"
hound = "=3.5.1"
llama_cpp = "0.3"
piper-rs = "*"
serde = { version = "=1.0.229", features = ["derive"] }
tokio = { version = "=1.54.1", features = ["full"] }
tokio-stream = "=0.1.19"
tower-http = { version = "=0.5.2", features = ["cors"] }
tract-onnx = "*"
whisper-rs = "*"
