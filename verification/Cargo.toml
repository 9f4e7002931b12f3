[package]
name = "ai_overlay"
version = "0.1.0"
edition = "2021"
publish = false

[dependencies]
serde_json = "1"
ollama-rs = "0.1"
tokio = { version = "1", features = ["macros", "rt-multi-thread"] }
