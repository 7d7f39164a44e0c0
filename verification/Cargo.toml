[package]
name = "flutter_rust_embedder"
version = "0.1.0"
edition = "2021"
publish = false

[dependencies]
ash = "0.38"
libloading = "0.8"
pollster = "0.4"
thiserror = "2"
tracing = "0.1"
tracing-subscriber = { version = "0.3", features = ["env-filter"] }
wgpu = "24"
wgpu-hal = "24"
winit = { version = "0.30", default-features = false, features = ["rwh_06", "x11"] }
