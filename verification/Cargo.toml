[package]
name = "winit"
version = "0.1.0"
edition = "2021"
publish = false

[dependencies]
lazy_static = "1"
raw-window-handle = "0.3"
winapi = { version = "0.3", features = ["winuser", "winnt", "minwindef"] }
xcb-dl = "*"
xcb-dl-util = "*"
