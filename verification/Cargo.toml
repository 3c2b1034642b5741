[package]
name = "fluid_sim"
version = "0.1.0"
edition = "2021"
publish = false

[dependencies]
rand_core = "0.6"
rand_xorshift = "0.3"
rayon = "1"
bytemuck = { version = "1", features = ["derive"] }
glam = { version = "0.24", features = ["bytemuck"] }
spirv-std = "0.9"
tokio = { version = "1", features = ["rt-multi-thread", "net"] }
wgpu = "0.6"
winit = "0.24"
