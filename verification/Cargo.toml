[package]
name = "orbit_camera"
version = "0.1.0"
edition = "2021"
publish = false

[dependencies]
bytemuck = { version = "=1.25.2", features = ["derive"] }
env_logger = "=0.11.11"
glam = "0.27"
pollster = "=1.0.1"
winit = { version = "=0.29.15", default-features = false, features = ["x11", "rwh_06"] }
