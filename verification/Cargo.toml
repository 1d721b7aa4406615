[package]
name = "webgpu_sum"
version = "0.1.0"
edition = "2021"
publish = false

[dependencies]
wgpu = "*"
pollster = "*"
futures-intrusive = "*"
env_logger = "*"
log = "*"
bytemuck = "*"
