[package]
name = "jxl_convert"
version = "0.1.0"
edition = "2021"
publish = false

[dependencies]
glob = "0.3"
image = { version = "0.25", default-features = false, features = ["png", "jpeg", "webp"] }
jpegxl-rs = "*"
oxipng = { version = "9", default-features = false }

[dev-dependencies]
half = "2"
