[package]
name = "face_tracking_pico"
version = "0.1.0"
edition = "2021"
publish = false

[dependencies]
openxr = { version = "*", default-features = false }
