[package]
name = "mpv_gl_bridge"
version = "0.1.0"
edition = "2021"
publish = false

[dependencies]
glutin = "=0.32.3"
libmpv2 = "=5.0.3"
raw-window-handle = "=0.6.2"
winit = "=0.30.13"
