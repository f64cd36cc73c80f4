[package]
name = "texel_relay"
version = "0.1.0"
edition = "2021"
publish = false

[dependencies]
rand = "0.10"
vulkano = "*"
vulkano-shaders = "*"
vulkano-taskgraph = "*"
winit = "0.30"
