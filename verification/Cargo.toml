[package]
name = "reco-core"
version = "0.1.0"
edition = "2021"
publish = false

[dependencies]
ash = "=0.38.0"
bytemuck = { version = "=1.25.2", features = ["derive"] }
libc = "=0.2.191"
libloading = "=0.8.9"
log = "=0.4.35"
nalgebra = "=0.35.0"
serde = { version = "=1.0.229", features = ["derive"] }
serde_json = "=1.0.154"
thiserror = "=2.0.21"
wgpu = "=28.0.0"
