[package]
name = "tunnlto"
version = "0.1.0"
edition = "2021"
publish = false

[dependencies]
home = "0.5"
lazy_static = "1.4"
once_cell = "1"
serde = { version = "1", features = ["derive"] }
serde_json = "1"
windows = { version = "0.48", features = ["Win32_Foundation", "Win32_Security", "Win32_System_JobObjects", "Win32_System_Threading"] }
winreg = "0.50"
