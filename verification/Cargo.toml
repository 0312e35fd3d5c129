[package]
name = "quad_render"
version = "0.1.0"
edition = "2021"
publish = false

[dependencies]
bytemuck = { version = "=1.25.2", features = ["derive"] }
pollster = "=1.0.1"
wgpu = "=25.0.2"
winit = "=0.30.13"
