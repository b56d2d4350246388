[package]
name = "axum_listener"
version = "0.1.0"
edition = "2021"
publish = false

[dependencies]
axum = { version = "0.8", default-features = false, features = ["tokio", "http1"] }
futures = "0.3"
tokio = { version = "1", features = ["net"] }
tracing = "0.1"
