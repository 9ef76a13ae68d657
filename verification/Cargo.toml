[package]
name = "quadrender"
version = "0.1.0"
edition = "2021"
publish = false

[dependencies]
slotmap = "=1.1.1"
glam = { version = "=0.34.2", features = ["bytemuck"] }
bytemuck = { version = "=1.25.2", features = ["derive"] }
wgpu = { version = "=30.0.1", features = ["noop"] }
