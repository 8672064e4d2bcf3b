[package]
name = "gbemu"
version = "0.1.0"
edition = "2021"
publish = false

[dependencies]
log = "0.4"
pixels = "0.2"
winit = "0.24"
winit_input_helper = "0.9"
luminance = "0.43"
luminance-derive = "0.6"
luminance-gl = "0.16"
luminance-glfw = "0.14"
luminance-windowing = "0.9"
glfw = "0.41"
