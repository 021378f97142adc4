[package]
name = "aurora"
version = "0.1.0"
edition = "2021"
publish = false

[dependencies]
png = "0.17"
wgpu = "0.12"
wgpu_glyph = "0.16"
winit = "0.26"
cgmath = "0.18"
bytemuck = { version = "1", features = ["derive"] }
futures = "0.3"
log = "0.4"
