[package]
name = "dmabuf_capture"
version = "0.1.0"
edition = "2021"
publish = false

[dependencies]
wayland-client = "*"
wayland-protocols = { version = "*", features = ["client"] }
wayland-protocols-wlr = { version = "*", features = ["client"] }
