[package]
name = "wiremesh"
version = "0.1.0"
edition = "2021"
publish = false

[dependencies]
rand = "0.8"
clock_ticks = "0.1"
vecmath = "1"
camera_controllers = "*"
piston = "*"
pistoncore-glfw_window = "*"
shader_version = "*"
gfx = "0.18"
gfx_device_gl = "0.16"
