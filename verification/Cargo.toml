[package]
name = "ollama_tool"
version = "0.1.0"
edition = "2021"
publish = false

[dependencies]
env_logger = "=0.11.11"
log = "=0.4.34"
reqwest = { version = "=0.12.28", default-features = false, features = ["charset"] }
serde_json = "=1.0.154"
tokio = { version = "=1.54.1", features = ["macros", "rt-multi-thread"] }
