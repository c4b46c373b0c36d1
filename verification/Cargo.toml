[package]
name = "qr_render"
version = "0.1.0"
edition = "2021"
publish = false

[dependencies]
svg = "*"
usvg = "*"
resvg = "*"
tiny-skia = "*"
image = { version = "*", default-features = false, features = ["png"] }
qrcode-generator = "*"
