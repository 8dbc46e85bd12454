[package]
name = "http_frontend"
version = "0.1.0"
edition = "2021"
publish = false

[dependencies]
anyhow = "*"
axum = "*"
tokio = { version = "*", features = ["rt-multi-thread", "net"] }
tokio-util = "*"
