[package]
name = "movingtext"
version = "0.1.0"
edition = "2021"
publish = false

[dependencies]
serde = { version = "1", features = ["derive"] }
serde_json = "1"
dirs = "5"
parking_lot = "0.12"
image = { version = "0.25", default-features = false, features = ["png", "jpeg", "bmp", "gif"] }
