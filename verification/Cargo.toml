[package]
name = "tauri_plugin_clerk"
version = "0.1.0"
edition = "2021"
publish = false

[dependencies]
clerk-fapi-rs = "*"
log = "*"
parking_lot = "*"
serde = { version = "*", features = ["derive"] }
serde_json = "*"
thiserror = "*"
tokio = { version = "*", features = ["sync"] }
