[package]
name = "morbo"
version = "0.1.0"
edition = "2021"
publish = false

[dependencies]
anyhow = "=1.0.104"
axum = "=0.5.17"
clap = { version = "=3.2.25", features = ["derive"] }
dotenv = "=0.15.0"
lettre = "=0.9.6"
lettre_email = "=0.9.4"
sentry-core = { version = "=0.27.0", features = ["client"] }
serde = { version = "=1.0.229", features = ["derive"] }
serde_json = { version = "=1.0.154", features = ["preserve_order"] }
tokio = { version = "=1.54.1", features = ["macros", "rt-multi-thread"] }
tower-http = { version = "=0.3.5", features = ["cors"] }
tracing = { version = "=0.1.44", features = ["log"] }
tracing-subscriber = "=0.3.23"
