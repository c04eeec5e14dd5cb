[package]
name = "graphics_interop"
version = "0.1.0"
edition = "2021"
publish = false

[dependencies]
ash = { version = "=0.34.0", default-features = false, features = ["loaded"] }
openxr-sys = "=0.9.3"
wgpu = "=0.12.0"
wgpu-hal = { version = "=0.12.5", features = ["vulkan"] }
