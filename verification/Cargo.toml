[package]
name = "thermometry"
version = "0.1.0"
edition = "2021"
publish = false

[dependencies]
anyhow = "1"
axum = "0.6"
tokio = { version = "1", features = ["macros", "rt-multi-thread"] }
