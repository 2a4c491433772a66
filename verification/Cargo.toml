[package]
name = "wsl-ssh-askpass"
version = "0.1.0"
edition = "2021"
publish = false

[dependencies]
windows = { version = "0.58", features = ["Foundation", "Security_Credentials_UI", "Win32_Foundation", "Win32_Graphics_Gdi", "Win32_Security_Credentials", "Win32_System_WinRT", "Win32_UI_WindowsAndMessaging"] }
