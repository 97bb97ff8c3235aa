[package]
name = "stellar_engine"
version = "0.1.0"
edition = "2021"
publish = false

[dependencies]
anyhow = "1"
bytemuck = { version = "1", features = ["derive", "extern_crate_alloc"] }
env_logger = "0.11"
fastrand = "2"
pollster = "0.4"
wgpu = "26"
winit = "0.30"
