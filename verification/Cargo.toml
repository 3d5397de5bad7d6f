[package]
name = "mlx-rs"
version = "0.1.0"
edition = "2021"
publish = false

[dependencies]
libc = "0.2"
num_enum = "0.7"
