[package]
name = "epaper_album"
version = "0.1.0"
edition = "2021"
publish = false

[dependencies]
serde = { version = "=1.0.229", features = ["derive"] }
serde_json = "=1.0.154"
toml = "=0.8.23"
chrono = "=0.4.45"
image = { version = "0.25", default-features = false, features = ["png", "jpeg", "bmp"] }
sha2 = "0.10"
hex = "0.4"
