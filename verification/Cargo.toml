[package]
name = "wgpu_book"
version = "0.1.0"
edition = "2021"
publish = false

[dependencies]
anyhow = "*"
bytemuck = { version = "*", features = ["derive"] }
env_logger = "*"
flume = "*"
glam = { version = "*", features = ["bytemuck"] }
pollster = "*"
rand = "*"
wgpu = "*"
winit = "*"
