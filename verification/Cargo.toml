[package]
name = "solar_poll"
version = "0.1.0"
edition = "2021"
publish = false

[dependencies]
modbus = "=1.1.3"
serde = { version = "=1.0.229", features = ["derive"] }
tauri = { version = "2", default-features = false }
