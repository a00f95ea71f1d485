[package]
name = "helio_ffi"
version = "0.1.0"
edition = "2021"
publish = false

[dependencies]
glam = "0.33"
wgpu = "30"
log = "0.4"
pollster = "*"
raw-window-handle = "0.6"
