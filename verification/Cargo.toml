[package]
name = "windows_iap"
version = "0.1.0"
edition = "2021"
publish = false

[dependencies]
base64 = "=0.22.1"
serde = { version = "1", features = ["derive"] }
serde_json = "=1.0.154"
tauri = { version = "=2.12.5", default-features = false }
windows = { version = "=0.62.2", features = ["Foundation", "Foundation_Collections", "Services_Store", "Win32_Foundation", "Win32_UI_Shell"] }
windows-collections = "=0.3.2"
