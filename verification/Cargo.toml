[package]
name = "loglib"
version = "0.1.0"
edition = "2021"
publish = false

[dependencies]
chrono = "0.4"
once_cell = "1"
syslog = "*"
windows-sys = { version = "*", features = ["Win32_Foundation", "Win32_System_EventLog"] }
