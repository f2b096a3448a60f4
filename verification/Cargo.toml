[package]
name = "gpu_scopes"
version = "0.1.0"
edition = "2021"

[dependencies]
wgpu = { version = "*", default-features = false }
