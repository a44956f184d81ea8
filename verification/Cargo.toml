[package]
name = "viewer_core"
version = "0.1.0"
edition = "2021"
publish = false

[dependencies]
anyhow = "1"
bytemuck = "1"
env_logger = "0.7"
futures = "0.3"
image = { version = "0.23", default-features = false, features = ["png", "jpeg"] }
shaderc = "0.6"
tobj = "2"
ultraviolet = "0.7"
wgpu = "0.6"
winit = "0.22"
