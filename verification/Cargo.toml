[package]
name = "unheic"
version = "0.1.0"
edition = "2021"
publish = false

[dependencies]
directories = "*"
image = { version = "0.25", default-features = false, features = ["png", "jpeg", "tiff", "webp"] }
libheif-rs = "*"
mimetype-detector = "*"
ordermap = "*"
png = "*"
rayon = "*"
rfd = "*"
smol = "*"
strum = { version = "*", features = ["derive"] }
tiff = "*"
turbojpeg = "*"
webp = "*"
