[package]
name = "ajemi"
version = "0.1.0"
edition = "2021"
publish = false

[dependencies]
log = "0.4"
windows = { version = "0.51", features = ["implement", "Win32_Foundation", "Win32_Graphics_Gdi", "Win32_System_Com", "Win32_System_LibraryLoader", "Win32_UI_TextServices", "Win32_UI_WindowsAndMessaging"] }
winreg = "0.52"
