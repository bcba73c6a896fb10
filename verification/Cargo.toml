[package]
name = "rust_renderer"
version = "0.1.0"
edition = "2021"
publish = false

[dependencies]
wgpu = "0.16"
winit = "0.28"
gltf = "1"
pollster = "0.3"
env_logger = "0.10"
bytemuck = "1"
