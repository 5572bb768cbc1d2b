[package]
name = "frame_lifecycle"
version = "0.1.0"
edition = "2021"
publish = false

[dependencies]
env_logger = "0.10"
tokio = { version = "1", features = ["macros", "rt-multi-thread"] }
wgpu = "0.17"
winit = "0.28"
