[package]
name = "void_gpu"
version = "0.1.0"
edition = "2021"
publish = false

[dependencies]
uuid = { version = "=1.27.0", features = ["v6", "rng"] }
wgpu = "=30.0.1"
tokio = { version = "=1.53.2", features = ["sync"], default-features = false }

[dev-dependencies]
rand = "=0.8.8"
