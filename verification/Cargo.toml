[package]
name = "compute_raster"
version = "0.1.0"
edition = "2021"
publish = false

[dependencies]
wgpu = "=0.15.1"
winit = { version = "=0.27.5", default-features = false, features = ["x11"] }
glam = "=0.30.10"
bytemuck = { version = "=1.25.2", features = ["derive"] }
pollster = "=0.2.5"
