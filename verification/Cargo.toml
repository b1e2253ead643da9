[package]
name = "glowing_dots"
version = "0.1.0"
edition = "2021"
publish = false

[dependencies]
log = "0.4"
naga = { version = "24", features = ["glsl-in"] }
pollster = "0.4"
wgpu = { version = "24", features = ["glsl"] }
winit = "0.30"
