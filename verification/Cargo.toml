[package]
name = "wgl_bootstrap"
version = "0.1.0"
edition = "2021"
publish = false

[dependencies]
gl = "0.14"
windows = { version = "0.43", features = ["Win32_Foundation", "Win32_Graphics_Gdi", "Win32_Graphics_OpenGL", "Win32_System_LibraryLoader", "Win32_UI_WindowsAndMessaging"] }
