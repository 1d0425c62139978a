[package]
name = "traco"
version = "0.1.0"
edition = "2021"
publish = false

[dependencies]
serde = { version = "1", features = ["derive"] }
serde_json = "1"
tauri = { version = "2", default-features = false, features = ["wry", "tray-icon"] }
uuid = { version = "1", features = ["v4"] }
winapi = { version = "0.3", features = ["winuser"] }
