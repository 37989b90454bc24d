[package]
name = "support"
version = "0.1.0"
edition = "2021"
publish = false

[dependencies]
ash = "=0.31.0"
gltf = "=0.15.2"
log = "=0.4.34"
nalgebra-glm = "=0.7.0"
snafu = "=0.6.10"
tobj = "=2.0.4"
vk-mem = "=0.2.0"
winit = "=0.22.2"
