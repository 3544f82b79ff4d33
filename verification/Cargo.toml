[package]
name = "vulkano_triangle"
version = "0.1.0"
edition = "2021"
publish = false

[dependencies]
vulkano = "*"
vulkano-shaders = "*"
winit = "*"
cgmath = "*"
