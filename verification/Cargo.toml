[package]
name = "frame_pipeline"
version = "0.1.0"
edition = "2021"
publish = false

[dependencies]
bytemuck = { version = "1", features = ["derive"] }
cgmath = "0.18"
env_logger = "0.11"
log = "0.4"
rand = "0.9"
wgpu = "25"
winit = { version = "0.29", default-features = false, features = ["rwh_06", "x11"] }
