[package]
name = "forge_bootstrap"
version = "0.1.0"
edition = "2021"
publish = false

[dependencies]
tauri = { version = "=2.12.5", default-features = false, features = ["wry"] }
tauri-plugin-log = { version = "=2.10.1", default-features = false }
