[package]
name = "threadchat"
version = "0.1.0"
edition = "2021"
publish = false

[dependencies]
dotenv = "0.15"
env_logger = "0.10"
llm-chain = "*"
llm-chain-openai = "*"
log = "0.4"
poise = "0.5"
tokio = { version = "1", features = ["macros", "rt-multi-thread", "time"] }
