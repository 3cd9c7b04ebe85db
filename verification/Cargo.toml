[package]
name = "atlas"
version = "0.1.0"
edition = "2021"
publish = false

[dependencies]
rand = "*"
wgpu = "*"
winit = "*"
tokio = { version = "*", features = ["rt", "rt-multi-thread"] }
tracing = "*"
tracing-subscriber = { version = "*", features = ["env-filter"] }
image = { version = "*", default-features = false, features = ["png"] }
bytemuck = { version = "*", features = ["derive"] }
cgmath = "*"
