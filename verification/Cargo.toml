[package]
name = "irid"
version = "0.1.0"
edition = "2021"
publish = false

[dependencies]
image = "0.24"
winit = "0.28"
wgpu = "0.16"
cgmath = "0.18"
bytemuck = { version = "1", features = ["derive"] }
pollster = "0.3"
tobj = "3"
log = "0.4"
thiserror = "1"
anyhow = "1"
futures = "0.3"
