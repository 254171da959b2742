[package]
name = "character_store"
version = "0.1.0"
edition = "2021"
publish = false

[dependencies]
dirs = "6"
serde = { version = "1", features = ["derive"] }
serde_json = { version = "1", features = ["preserve_order"] }
tauri = { version = "2", default-features = false }
tauri-plugin-fs = { version = "2", default-features = false }
