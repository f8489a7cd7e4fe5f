[package]
name = "layer_compositor"
version = "0.1.0"
edition = "2021"
publish = false

[dependencies]
glium = "*"
glutin = "*"
imgui = "*"
imgui-glium-renderer = "*"
imgui-winit-support = "*"
skia-safe = "*"
thiserror = "*"
