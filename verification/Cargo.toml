[package]
name = "renderkit"
version = "0.1.0"
edition = "2021"
publish = false

[dependencies]
anyhow = "*"
bytemuck = { version = "*", features = ["derive"] }
cgmath = "*"
env_logger = "*"
image = "*"
log = "*"
pollster = "*"
tobj = "*"
wgpu = "*"
winit = "*"
