[package]
name = "transcription_service"
version = "0.1.0"
edition = "2021"
publish = false

[dependencies]
axum = "0.7"
pyo3 = { version = "0.20", features = ["auto-initialize"] }
serde = { version = "1", features = ["derive"] }
tokio = { version = "1", features = ["full"] }
