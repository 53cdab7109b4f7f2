[package]
name = "vulkan_fractal"
version = "0.1.0"
edition = "2021"
publish = false

[dependencies]
image = { version = "0.24", default-features = false, features = ["png"] }
vulkano = "0.34"
vulkano-shaders = "0.34"
winit = "0.28"
bytemuck = { version = "1", features = ["derive"] }
