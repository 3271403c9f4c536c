[package]
name = "conpty"
version = "0.1.0"
edition = "2021"
publish = false

[dependencies]
miow = "0.6"
windows-sys = { version = "0.48", features = ["Win32_Foundation", "Win32_Security", "Win32_System_Console", "Win32_System_Threading"] }
