[package]
name = "rpong"
version = "0.1.0"
edition = "2021"
publish = false

[dependencies]
gl = "=0.14.0"
glfw = { version = "=0.59.0", default-features = false, features = ["raw-window-handle-v0-6"] }
