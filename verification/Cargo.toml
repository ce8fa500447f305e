[package]
name = "axiom_logging"
version = "0.1.0"
edition = "2021"
publish = false

[dependencies]
axiom-rs = "*"
chrono = "*"
serde = { version = "*", features = ["derive"] }
serde_json = "*"
tokio = { version = "*", features = ["sync", "rt", "rt-multi-thread"] }
tracing = "*"
tracing-subscriber = "*"
typed-builder = "*"
