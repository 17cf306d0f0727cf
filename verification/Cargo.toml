[package]
name = "camera_fit"
version = "0.1.0"
edition = "2021"
publish = false

[dependencies]
shrev = "1"
amethyst = { version = "0.15", default-features = false, features = ["renderer", "empty"] }
