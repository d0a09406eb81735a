[package]
name = "gameboy_core"
version = "0.1.0"
edition = "2021"
publish = false

[dependencies]
web-time = "=1.1.0"
tracing = "=0.1.44"
tracing-subscriber = "0.3"
egui = "*"
egui-wgpu = "*"
egui-winit = "*"
pixels = "*"
cpal = "*"
rfd = "*"
pollster = "*"
