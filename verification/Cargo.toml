[package]
name = "sky_pass"
version = "0.1.0"
edition = "2021"
publish = false

[dependencies]
gfx = "*"
glsl-layout = "*"
image = { version = "0.25", default-features = false, features = ["bmp", "jpeg", "png", "tga"] }
nalgebra = "*"
