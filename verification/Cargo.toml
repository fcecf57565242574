[package]
name = "comhra"
version = "0.1.0"
edition = "2021"
publish = false

[dependencies]
base64 = "=0.22.1"
uuid = { version = "=1.27.0", features = ["v4"] }
serde = { version = "=1.0.229", features = ["derive"] }
serde_json = "=1.0.151"
tokio = { version = "=1.53.2", features = ["rt-multi-thread", "macros", "time"] }
tokio-stream = "=0.1.19"
ollama-rs = { version = "=0.3.6", features = ["stream"] }
async-openai = { version = "=0.42.1", features = ["chat-completion"] }
