[package]
name = "project_bot"
version = "0.1.0"
edition = "2021"
publish = false

[dependencies]
serenity = "0.12"
tokio = { version = "1", features = ["macros", "rt-multi-thread", "signal", "time", "sync"] }
dotenv = "0.15"
tracing = "0.1"
tracing-subscriber = "0.3"
