[package]
name = "learn_ogl_rs"
version = "0.1.0"
edition = "2021"
publish = false

[dependencies]
glam = "0.29"
winit = "0.30"
glutin = "0.32"
glutin-winit = "0.5"
image = { version = "0.25", default-features = false, features = ["png"] }
