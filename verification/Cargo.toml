[package]
name = "magma_virtio"
version = "0.1.0"
edition = "2021"
publish = false

[dependencies]
zerocopy = { version = "0.8", features = ["derive"] }
magma-gpu = "*"
