[package]
name = "tauri-plugin-router"
version = "0.1.0"
edition = "2021"
publish = false

[dependencies]
serde = { version = "=1.0.229", features = ["derive"] }
serde_json = "=1.0.154"
thiserror = "=2.0.21"
tauri = { version = "=2.12.5", default-features = false, features = ["unstable"] }
