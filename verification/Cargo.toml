[package]
name = "image_gallery"
version = "0.1.0"
edition = "2021"
publish = false

[dependencies]
image = "*"
tokio = { version = "*", default-features = false, features = ["rt-multi-thread"] }
