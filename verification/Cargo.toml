[package]
name = "montage"
version = "0.1.0"
edition = "2021"
publish = false

[dependencies]
serde = { version = "=1.0.229", features = ["derive"] }
serde_json = "=1.0.151"
dirs = "=7.0.0"
image = { version = "=0.25.10", default-features = false, features = ["png", "jpeg"] }
