[package]
name = "vulkan_samples"
version = "0.1.0"
edition = "2021"
publish = false

[dependencies]
log = "0.4"
log4rs = "=1.4.0"
vulkano = "=0.34.2"
vulkano-win = "=0.34.0"
winit = "=0.28.7"
