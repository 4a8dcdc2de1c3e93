[package]
name = "nbody"
version = "0.1.0"
edition = "2021"
publish = false

[dependencies]
bytemuck = { version = "1.4", features = ["derive"] }
cgmath = "0.18"
env_logger = "0.8"
futures = "0.3"
wgpu = "0.9"
winit = "0.25"
