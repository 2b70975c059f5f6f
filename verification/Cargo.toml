[package]
name = "wasm_server"
version = "0.1.0"
edition = "2021"
publish = false

[dependencies]
axum = "*"
tokio = { version = "*", features = ["full"] }
tokio-util = { version = "*", features = ["io"] }
serde = { version = "*", features = ["derive"] }
serde_json = "*"
