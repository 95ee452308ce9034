[package]
name = "stereo_renderer"
version = "0.1.0"
edition = "2021"
publish = false

[dependencies]
arc-swap = "=1.9.2"
cgmath = "*"
err-derive = "*"
getopts = "*"
image = "*"
obj-rs = "*"
openvr = "*"
vulkano = "*"
vulkano-shaders = "*"
