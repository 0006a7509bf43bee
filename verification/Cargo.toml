[package]
name = "anchor"
version = "0.1.0"
edition = "2021"
publish = false

[dependencies]
rodio = { version = "=0.19.0", default-features = false, features = ["wav"] }
serde = { version = "1", features = ["derive"] }
toml = "=0.8.23"
windows-sys = { version = "0.59", features = ["Win32_Foundation", "Win32_UI_WindowsAndMessaging"] }
