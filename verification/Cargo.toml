[package]
name = "quadwm"
version = "0.1.0"
edition = "2021"
publish = false

[dependencies]
anyhow = "1"
bytemuck = { version = "1", features = ["derive"] }
glam = "*"
pollster = "*"
smithay = { version = "*", default-features = false, features = ["wayland_frontend"] }
tracing = "0.1"
tracing-subscriber = { version = "0.3", features = ["env-filter"] }
wgpu = "*"
winit = "0.30"
