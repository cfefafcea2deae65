[package]
name = "ferrisetw"
version = "0.1.0"
edition = "2021"
publish = false

[dependencies]
windows = { version = "=0.48.0", features = ["Win32_Foundation", "Win32_System_SystemInformation", "Win32_System_SystemServices"] }
