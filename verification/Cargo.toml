[package]
name = "issue_bot"
version = "0.1.0"
edition = "2021"
publish = false

[dependencies]
chrono = "=0.4.45"
serenity = "=0.12.5"
octocrab = "=0.47.1"
tokio = { version = "=1.54.1", features = ["macros", "rt-multi-thread", "sync"] }
tracing = "=0.1.44"
tracing-subscriber = { version = "=0.3.23", features = ["env-filter", "time", "local-time"] }
tracing-error = "=0.2.1"
color-eyre = "=0.6.5"
dotenv = "=0.15.0"
time = { version = "=0.3.55", features = ["macros"] }

[dev-dependencies]
regex = "=1.13.1"
