[package]
name = "mr_nag"
version = "0.1.0"
edition = "2021"
publish = false

[dependencies]
anyhow = "=1.0.104"
chrono = "=0.4.45"
clap = { version = "=4.6.7", features = ["derive", "env"] }
gitlab = "=0.1904.0"
reqwest = "=0.13.5"
secrecy = "=0.10.3"
serde = { version = "*", features = ["derive"] }
slack-morphism = { version = "=2.29.0", features = ["hyper"] }
tokio = { version = "=1.53.2", features = ["macros", "rt-multi-thread"] }
tracing = "=0.1.44"
tracing-journald = "=0.3.2"
tracing-subscriber = { version = "=0.3.23", features = ["env-filter"] }
