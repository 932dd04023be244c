[package]
name = "pandora"
version = "0.1.0"
edition = "2021"
publish = false

[dependencies]
wgpu = { version = "23.0.1", default-features = false }
winit = { version = "0.29.15", default-features = false, features = ["rwh_06", "x11"] }
pollster = "0.3.0"
thiserror = "1.0.69"
