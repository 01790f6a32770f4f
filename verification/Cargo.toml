[package]
name = "lite_notes"
version = "1.0.0"
edition = "2021"
publish = false

[dependencies]
serde = { version = "1", features = ["derive"] }
serde_json = "1"
notify = "8"
tauri = { version = "2", default-features = false, features = ["wry"] }
window-vibrancy = "0.8"
windows-sys = { version = "0.61", features = ["Win32_Foundation", "Win32_Security", "Win32_System_Threading"] }
