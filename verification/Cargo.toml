[package]
name = "gptcli"
version = "0.1.0"
edition = "2021"
publish = false

[dependencies]
tiktoken-rs = "=0.12.1"
async-openai = { version = "=0.42.1", features = ["chat-completion", "completions"] }
backoff = "=0.4.0"
clap = { version = "=4.6.7", features = ["derive"] }
tokio = { version = "=1.53.2", features = ["macros", "rt-multi-thread"] }
futures = "=0.3.34"
anyhow = "=1.0.104"
tracing-subscriber = { version = "=0.3.23", features = ["env-filter"] }
