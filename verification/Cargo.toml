[package]
name = "await_openai"
version = "0.1.0"
edition = "2021"
publish = false

[dependencies]
serde_json = "=1.0.151"
tiktoken-rs = "=0.12.1"
serde = { version = "=1.0.229", features = ["derive"] }
anyhow = "=1.0.104"
schemars = "=1.2.2"
