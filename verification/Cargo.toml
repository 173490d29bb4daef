[package]
name = "stt_groq_rust"
version = "0.1.0"
edition = "2021"
publish = false

[dependencies]
num-traits = "0.2.19"
anyhow = "1"
hound = "3.5"
tempfile = "3"
tokio = { version = "1", features = ["sync", "fs", "io-util", "rt", "macros"] }
reqwest = { version = "0.12", default-features = false, features = ["multipart"] }
serde = { version = "1", features = ["derive"] }
dotenv = "0.15"
tracing = "0.1"
tracing-appender = "0.2"
tracing-subscriber = { version = "0.3", features = ["json", "env-filter"] }
time = { version = "0.3", features = ["macros"] }
