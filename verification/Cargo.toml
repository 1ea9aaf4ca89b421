[package]
name = "snake_game"
version = "0.1.0"
edition = "2021"
publish = false

[dependencies]
rand = "0.8"
image = { version = "0.24", default-features = false }
imageproc = { version = "0.23", default-features = false }
pixels = "0.9"
winit = "0.26"
