[package]
name = "kotauri"
version = "0.1.3"
edition = "2021"
publish = false

[dependencies]
serde = { version = "1", features = ["derive"] }
serde_json = "1"
dirs = "6"
tokio = { version = "1", default-features = false, features = ["time"] }
tauri = { version = "2", default-features = false, features = ["wry", "tray-icon"] }
webkit2gtk = "2"
gtk = "0.18"
gdk-pixbuf = "0.18"
