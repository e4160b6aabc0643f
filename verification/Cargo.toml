[package]
name = "async_cuda"
version = "0.1.0"
edition = "2021"
publish = false

[dependencies]
cudarc = { version = "=0.11.9", features = ["cuda-12000"] }
cc = "=1.6.0"
