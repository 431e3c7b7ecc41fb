[package]
name = "steve"
version = "0.1.0"
edition = "2021"
publish = false

[dependencies]
anyhow = "=1.0.104"
async-openai = { version = "=0.43.0", default-features = false, features = ["chat-completion-types"] }
base64 = "=0.22.1"
chrono = "=0.4.45"
crossterm = { version = "=0.29.0", features = ["event-stream"] }
directories = "=6.0.0"
ignore = "=0.4.34"
ratatui = { version = "=0.30.2", default-features = false }
serde_json = "=1.0.154"
tokio = { version = "=1.54.1", features = ["full"] }
tokio-stream = "=0.1.19"
tokio-util = "=0.7.20"
tracing = "=0.1.44"
