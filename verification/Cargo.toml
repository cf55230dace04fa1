[package]
name = "hamid-mahdavi-client"
version = "0.1.0"
edition = "2021"
publish = false

[dependencies]
anyhow = "1"
chrono = "0.4"
native-windows-gui = "1.0.13"
serde = { version = "1", features = ["derive"] }
serde_json = "1"
ureq = "2"
windows = { version = "0.58", features = ["Win32_Foundation", "Win32_UI_WindowsAndMessaging", "Win32_UI_Shell"] }
winreg = "0.52"
zip = { version = "0.6", default-features = false, features = ["deflate"] }
