[package]
name = "async_buffer"
version = "0.1.0"
edition = "2021"
publish = false

[dependencies]
wgpu = { version = "=30.0.1", default-features = false, features = ["noop", "std"] }
