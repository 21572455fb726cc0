[package]
name = "raw-gpu-handle"
version = "0.1.0"
edition = "2021"
publish = false

[dependencies]
ash = "=0.38.0"
wgpu = "=28.0.0"
thiserror = "=2.0.21"
tokio = { version = "=1.54.1", features = ["macros", "rt-multi-thread"] }
