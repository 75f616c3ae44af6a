[package]
name = "image_tools"
version = "0.1.0"
edition = "2021"
publish = false

[dependencies]
image = { version = "=0.25.10", default-features = false, features = ["jpeg", "png", "webp"] }
webp = { version = "=0.3.1", default-features = false }
libwebp-sys = "=0.9.6"
rustler = "=0.34.0"
