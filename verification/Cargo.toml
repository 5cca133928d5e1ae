[package]
name = "wgimage"
version = "0.1.0"
edition = "2021"
publish = false

[dependencies]
bytemuck = "1"
image = { version = "0.24", default-features = false }
wgpu = "0.16"
