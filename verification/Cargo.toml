[package]
name = "winput"
version = "0.1.0"
edition = "2021"
publish = false

[dependencies]
windows = { version = "=0.43.0", features = [
    "Win32_Foundation",
    "Win32_Graphics_Gdi",
    "Win32_System_Diagnostics_Debug",
    "Win32_System_LibraryLoader",
    "Win32_UI_Input_KeyboardAndMouse",
    "Win32_UI_WindowsAndMessaging",
] }
