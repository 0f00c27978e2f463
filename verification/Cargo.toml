[package]
name = "hyperlist"
version = "0.1.0"
edition = "2021"
publish = false

[dependencies]
async-sqlite = "*"
axum = "*"
serde = { version = "*", features = ["derive"] }
tokio = { version = "*", features = ["macros", "rt-multi-thread", "net"] }
