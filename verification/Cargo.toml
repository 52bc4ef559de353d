[package]
name = "quad_renderer"
version = "0.1.0"
edition = "2021"
publish = false

[dependencies]
vulkano = "0.26.0"
vulkano-shaders = "0.26.0"
vulkano-win = "0.26.0"
winit = "0.25.0"
