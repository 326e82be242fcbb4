[package]
name = "vncviewer"
version = "0.1.0"
edition = "2021"
publish = false

[dependencies]
anyhow = "=1.0.104"
arboard = "=3.7.0"
bytemuck = "=1.25.2"
egui = { version = "=0.37.0", features = ["bytemuck"] }
keyring-core = "=1.0.1"
miniquad = "=0.4.11"
serde = { version = "=1.0.229", features = ["derive"] }
serde_json = "=1.0.154"
tokio = { version = "=1.54.1", features = ["rt-multi-thread", "net", "time", "sync", "macros"] }
tracing = "=0.1.44"
tracing-subscriber = "=0.3.23"
vnc-rs = "=0.6.0"
windows-sys = { version = "=0.61.2", features = ["Win32_Foundation", "Win32_Graphics_Gdi", "Win32_System_LibraryLoader", "Win32_System_Threading", "Win32_UI_WindowsAndMessaging"] }
windows-native-keyring-store = "=1.1.0"
zbus-secret-service-keyring-store = { version = "=1.0.1", features = ["rt-tokio-crypto-rust"] }
