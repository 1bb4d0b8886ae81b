[package]
name = "agent_pipeline"
version = "0.1.0"
edition = "2021"
publish = false

[dependencies]
genai = "0.1"
serde = { version = "1", features = ["derive"] }
serde_json = "1"
simple-fs = "*"
tokio = { version = "1", features = ["rt", "rt-multi-thread"] }
