[package]
name = "ezpc"
version = "0.1.0"
edition = "2021"
publish = false

[dependencies]
winit = "0.30"
wgpu = "23"
pollster = "0.4"
