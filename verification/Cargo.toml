[package]
name = "hydra"
version = "0.1.0"
edition = "2021"
publish = false

[dependencies]
bytemuck = { version = "1", features = ["derive"] }
cgmath = "0.18"
colored = "2"
image = { version = "0.25", default-features = false, features = ["png", "pnm", "jpeg"] }
nalgebra-glm = "*"
pollster = "0.3"
tobj = "4"
wgpu = { version = "22", default-features = false, features = ["wgsl"] }
winit = { version = "0.30", default-features = false, features = ["x11", "rwh_06"] }
