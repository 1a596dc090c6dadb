[package]
name = "local_stt"
version = "0.1.0"
edition = "2021"
publish = false

[dependencies]
axum = { version = "0.8", features = ["ws"] }
ractor = { version = "0.15", features = ["async-trait"] }
serde = { version = "1", features = ["derive"] }
serde_html_form = "0.2"
tokio = { version = "1", features = ["full"] }
tower = "0.5"
tower-http = { version = "0.6", features = ["cors"] }
tracing = "0.1"
