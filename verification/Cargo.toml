[package]
name = "gpu_examples"
version = "0.1.0"
edition = "2021"
publish = false

[dependencies]
wgpu = "0.17"
winit = { version = "0.28", default-features = false, features = ["x11"] }
pollster = "0.3"
bytemuck = { version = "1", features = ["derive"] }
glam = { version = "0.24", features = ["bytemuck"] }
rand = "0.8"
