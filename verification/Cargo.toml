[package]
name = "todo_api"
version = "0.1.0"
edition = "2021"
publish = false

[dependencies]
anyhow = "1"
serde = { version = "1", features = ["derive"] }
serde_json = "=1.0.154"
spin-sdk = "3.1.1"
utoipa = "5"
