[package]
name = "paperwall"
version = "0.1.0"
edition = "2021"
publish = false

[dependencies]
http-range = "0.1"
objc2 = "*"
objc2-app-kit = "*"
objc2-core-graphics = "*"
objc2-foundation = "*"
rfd = "*"
serde = { version = "1", features = ["derive"] }
serde_json = "1"
tao = "*"
url = "2"
windows = { version = "*", features = ["Win32_Foundation", "Win32_System_Com", "Win32_UI_Shell", "Win32_UI_WindowsAndMessaging"] }
wry = "*"
