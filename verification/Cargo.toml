[package]
name = "deepseek-balance"
version = "0.1.0"
edition = "2021"
publish = false

[dependencies]
serde = { version = "=1.0.229", features = ["derive"] }
ureq = { version = "=2.12.1", features = ["json"] }
windows = { version = "=0.57.0", features = ["Win32_Foundation", "Win32_UI_WindowsAndMessaging", "Win32_Graphics_Gdi", "Win32_UI_Shell", "Win32_System_Registry", "Win32_Security_Cryptography", "Win32_System_LibraryLoader", "Win32_System_Memory"] }
