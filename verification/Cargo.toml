[package]
name = "arctis-battery-indicator"
version = "0.1.0"
edition = "2021"
publish = false

[dependencies]
anyhow = "1"
hidapi = "2"
image = { version = "0.25", default-features = false, features = ["png"] }
log = "0.4"
serde = { version = "1", features = ["derive"] }
serde_json = "1"
simplelog = "0.12"
sys-locale = "0.3"
toml = "0.8"
tray-icon = "*"
winit = "0.30"
