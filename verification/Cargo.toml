[package]
name = "my_vercel_api"
version = "0.1.0"
edition = "2021"
publish = false

[dependencies]
anyhow = "1"
gemini-rs = "*"
openai = "*"
serde = { version = "1", features = ["derive"] }
serde_json = "1"
thiserror = "1"
tokio = { version = "1", features = ["macros", "rt-multi-thread"] }
vercel_runtime = "1"
