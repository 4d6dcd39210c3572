[package]
name = "luma11y"
version = "0.2.0"
edition = "2021"
publish = false

[dependencies]
serde = { version = "1", features = ["derive"] }
x11rb = "0.13"
cairo-rs = "0.20"
objc2 = "0.6"
objc2-app-kit = "0.3"
objc2-foundation = "0.3"
core-graphics = "0.24"
windows = { version = "0.58", features = ["Win32_Foundation", "Win32_Graphics_Gdi", "Win32_Graphics_GdiPlus", "Win32_System_LibraryLoader", "Win32_UI_Input_KeyboardAndMouse", "Win32_UI_WindowsAndMessaging"] }
