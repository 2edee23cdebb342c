[package]
name = "zero2prod"
version = "0.1.0"
edition = "2021"
publish = false

[dependencies]
argon2 = "0.5"
base64 = "0.22"
chrono = "0.4"
rand = "0.8"
unicode-segmentation = "1"
uuid = { version = "1", features = ["v4"] }
