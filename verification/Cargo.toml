[package]
name = "codex_switch_lite"
version = "0.1.0"
edition = "2021"
publish = false

[dependencies]
toml_edit = "*"
toml = "*"
serde = { version = "1", features = ["derive"] }
serde_json = "1"
dirs = "*"
tauri = { version = "2", default-features = false, features = ["wry"] }
