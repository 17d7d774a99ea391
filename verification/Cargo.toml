[package]
name = "just_llm_client"
version = "0.1.0"
edition = "2021"
publish = false

[dependencies]
serde_json = "=1.0.154"
strip-ansi-escapes = "=0.2.1"
reqwest = { version = "=0.12.28", default-features = false, features = ["stream"] }
clap = { version = "=4.6.7", features = ["derive", "env"] }
anyhow = "=1.0.104"
serde = "1"
tokio = { version = "1", features = ["rt-multi-thread", "macros", "time", "sync"] }
futures-core = "0.3"
futures-util = "0.3"
async-stream = "0.3"
portable-pty = "*"
ratatui = "0.29"
