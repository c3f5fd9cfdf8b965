[package]
name = "stringcast"
version = "0.1.0"
edition = "2021"
publish = false

[dependencies]
enigo = "*"
windows-sys = { version = "0.59", features = ["Win32_Foundation", "Win32_Security", "Win32_System_Threading", "Win32_UI_WindowsAndMessaging"] }
