[package]
name = "macro_paste"
version = "0.1.0"
edition = "2021"
publish = false

[dependencies]
global-hotkey = "=0.9.0"
serde = { version = "=1.0.229", features = ["derive"] }
serde_json = "=1.0.154"
tray-icon = "=0.26.1"
winit = "=0.30.13"
libc = "=0.2.191"
clipboard-win = "=5.4.3"
winreg = "=0.56.0"
core-foundation = "=0.10.1"
core-graphics = "=0.25.0"
windows-sys = { version = "=0.59.0", features = ["Win32_Foundation", "Win32_Security", "Win32_System_Threading", "Win32_UI_Input_KeyboardAndMouse", "Win32_UI_WindowsAndMessaging"] }
