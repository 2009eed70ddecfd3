[package]
name = "life_sim"
version = "0.1.0"
edition = "2021"
publish = false

[dependencies]
rand = "0.9"
wgpu = "*"
winit = "0.30"
pollster = "*"
env_logger = "*"
bytemuck = "*"
