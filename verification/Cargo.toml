[package]
name = "crossbind"
version = "0.1.0"
edition = "2021"
publish = false

[dependencies]
wgpu = "0.19"
tokio = { version = "1", features = ["macros", "rt-multi-thread"] }
