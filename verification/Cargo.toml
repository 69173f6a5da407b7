[package]
name = "hardware_info"
version = "0.1.0"
edition = "2021"
publish = false

[dependencies]
log = "=0.4.34"
serde = { version = "=1.0.229", features = ["derive"] }
sysinfo = "=0.39.6"
tauri = { version = "2", default-features = false, features = ["wry"] }
wmi = { version = "0.17", default-features = false }
