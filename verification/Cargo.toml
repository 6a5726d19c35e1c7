[package]
name = "fractal_viewport"
version = "0.1.0"
edition = "2021"
publish = false

[dependencies]
env_logger = "0.10"
log = "0.4"
pollster = "0.3"
wgpu = "0.15"
winit = "0.28"
