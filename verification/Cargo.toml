[package]
name = "rustycubes"
version = "0.1.0"
edition = "2021"
publish = false

[dependencies]
wgpu = "25"
winit = "0.30"
log = "0.4"
env_logger = "0.11"
futures = "0.3"
