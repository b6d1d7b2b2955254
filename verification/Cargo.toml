[package]
name = "cairo_demos"
version = "0.1.0"
edition = "2021"
publish = false

[dependencies]
cairo-rs = { version = "*", features = ["png"] }
rand = "*"
