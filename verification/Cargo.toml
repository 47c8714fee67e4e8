[package]
name = "watering_backend"
version = "0.1.0"
edition = "2021"
publish = false

[dependencies]
axum = "*"
rppal = "*"
serde = { version = "*", features = ["derive"] }
tokio = { version = "*", features = ["rt-multi-thread", "macros", "net", "sync", "time"] }
tower-http = { version = "*", features = ["cors"] }
tracing = "*"
tracing-subscriber = "*"
