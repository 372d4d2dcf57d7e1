[package]
name = "orbit_points"
version = "0.1.0"
edition = "2021"
publish = false

[dependencies]
rand = "*"
bytemuck = { version = "*", features = ["derive"] }
futures = "*"
wgpu = "*"
winit = "*"
