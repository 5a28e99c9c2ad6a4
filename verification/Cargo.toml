[package]
name = "particles"
version = "0.1.0"
edition = "2021"
publish = false

[dependencies]
bytemuck = { version = "1", features = ["derive"] }
futures = "0.3"
image = "0.24"
wgpu = "0.12"
winit = "0.26"
winit_input_helper = "0.11"
