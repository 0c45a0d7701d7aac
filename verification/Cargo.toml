[package]
name = "fragments"
version = "0.1.0"
edition = "2021"
publish = false

[dependencies]
axum = "0.8"
minijinja = { version = "2", features = ["loader"] }
serde = { version = "1", features = ["derive"] }
tokio = { version = "1", features = ["full"] }
tower-http = { version = "0.6", features = ["fs", "trace"] }
tracing = "0.1"
tracing-subscriber = "0.3"
