[package]
name = "swatch"
version = "0.1.0"
edition = "2021"
publish = false

[dependencies]
color_processing = "*"
image = { version = "0.25", default-features = false, features = ["gif", "ico", "jpeg", "png", "tiff", "webp", "rayon"] }
rand = "0.9"
rayon = "1"
rocket = { version = "0.5", features = ["json"] }
svg = "*"
