[package]
name = "image_classify"
version = "0.1.0"
edition = "2021"
publish = false

[dependencies]
tensorflow = { version = "=0.18.0", features = ["eager"] }
