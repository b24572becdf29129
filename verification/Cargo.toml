[package]
name = "clipboard_bridge"
version = "0.1.0"
edition = "2021"
publish = false

[dependencies]
which = "*"
async-process = "*"
futures-lite = "*"
chrono = "*"
axum = "*"
tokio = { version = "*", features = ["rt-multi-thread", "net", "macros"] }
tower-http = { version = "*", features = ["cors"] }
serde = { version = "*", features = ["derive"] }
serde_json = "*"
