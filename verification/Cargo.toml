[package]
name = "frame_composer"
version = "0.1.0"
edition = "2021"
publish = false

[dependencies]
ab_glyph = "0.2"
anyhow = "1"
bytemuck = { version = "1", features = ["derive"] }
color = "*"
env_logger = "0.11"
imageproc = { version = "0.25", default-features = false }
log = "0.4"
pollster = "*"
rand = "0.9"
wgpu = "25"
winit = "0.30"
