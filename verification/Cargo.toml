[package]
name = "dinput_proxy"
version = "0.1.0"
edition = "2021"
publish = false

[dependencies]
log = "0.4"
once_cell = "1"
windows = { version = "0.48", features = [
    "Win32_Foundation",
    "Win32_System_LibraryLoader",
    "Win32_System_SystemInformation",
    "Win32_System_SystemServices",
] }
