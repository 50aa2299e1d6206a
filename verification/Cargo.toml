[package]
name = "eva_engine"
version = "0.1.0"
edition = "2021"
publish = false

[dependencies]
dolly = "*"
futures-lite = "*"
glam = "*"
wgpu = "*"
winit = "*"
